use vstd::prelude::*;
use vstd::string::StringExecFns;

use crate::server::ServerState;

verus! {

/// Side length (pixels) below which the pairing picture is not drawn.
pub const QR_MIN_SIZE: u32 = 200;

/// Colour of the dark modules of the pairing picture.
pub const QR_DARK: &'static str = "#000000";

/// Colour of the light modules of the pairing picture.
pub const QR_LIGHT: &'static str = "#ffffff";

/// Why no pairing picture could be made.
#[derive(Clone, Copy, Debug, PartialEq, Eq, Structural)]
pub enum PairingError {
    /// No one-time password has been issued.
    NoPassword,
    /// The one-time password has expired.
    PasswordExpired,
    /// The host's address on the local network is unknown.
    NoLocalAddress,
    /// The link does not fit in a QR code.
    Encoding,
}

#[verifier::external_type_specification]
#[verifier::external_body]
pub struct ExQrError(qrcode::types::QrError);

/// The SVG picture of the QR code (error correction level M) that encodes
/// `data`, at least `min_size` pixels a side, in the colours `dark` and `light`.
pub uninterp spec fn qr_svg(data: Seq<char>, min_size: u32, dark: Seq<char>, light: Seq<char>) -> Seq<char>;

/// Whether `data` fits in a QR code at error correction level M (at most
/// version 40).
pub uninterp spec fn qr_fits(data: Seq<char>) -> bool;

/// Relies on qrcode's `QrCode::new` and its SVG renderer: `new` fails exactly
/// when the data does not fit, and the picture is a function of the data and the
/// drawing parameters alone. `min_dimensions` adds the size to the module count
/// in `u32`, hence the bound on `min_size`.
#[verifier::external_body]
fn render_qr_svg(data: &str, min_size: u32, dark: &str, light: &str) -> (r: Result<String, qrcode::types::QrError>)
    requires
        min_size <= 1_000_000,
    ensures
        r is Ok <==> qr_fits(data@),
        r is Ok ==> r->Ok_0@ == qr_svg(data@, min_size, dark@, light@),
{
    let code = qrcode::QrCode::new(data)?;
    Ok(code.render::<qrcode::render::svg::Color>()
        .min_dimensions(min_size, min_size)
        .dark_color(qrcode::render::svg::Color(dark))
        .light_color(qrcode::render::svg::Color(light))
        .build())
}

pub open spec fn digit_char(d: nat) -> char {
    if d == 0 {
        '0'
    } else if d == 1 {
        '1'
    } else if d == 2 {
        '2'
    } else if d == 3 {
        '3'
    } else if d == 4 {
        '4'
    } else if d == 5 {
        '5'
    } else if d == 6 {
        '6'
    } else if d == 7 {
        '7'
    } else if d == 8 {
        '8'
    } else {
        '9'
    }
}

/// The decimal digits of `n`, without leading zeros.
pub open spec fn decimal(n: nat) -> Seq<char>
    decreases n,
{
    if n < 10 {
        seq![digit_char(n)]
    } else {
        decimal(n / 10).push(digit_char(n % 10))
    }
}

/// The one-character text of a decimal digit.
pub fn digit_str(d: u64) -> (r: &'static str)
    requires
        d < 10,
    ensures
        r@ == seq![digit_char(d as nat)],
        crate::server::is_digit_char(digit_char(d as nat)),
{
    proof {
        reveal_strlit("0");
        reveal_strlit("1");
        reveal_strlit("2");
        reveal_strlit("3");
        reveal_strlit("4");
        reveal_strlit("5");
        reveal_strlit("6");
        reveal_strlit("7");
        reveal_strlit("8");
        reveal_strlit("9");
    }
    let r = match d {
        0 => "0",
        1 => "1",
        2 => "2",
        3 => "3",
        4 => "4",
        5 => "5",
        6 => "6",
        7 => "7",
        8 => "8",
        _ => "9",
    };
    assert(r@ =~= seq![digit_char(d as nat)]);
    r
}

/// `n` written in decimal.
pub fn decimal_text(n: u64) -> (r: String)
    ensures
        r@ == decimal(n as nat),
    decreases n,
{
    if n < 10 {
        String::from_str(digit_str(n))
    } else {
        let mut s = decimal_text(n / 10);
        s.append(digit_str(n % 10));
        assert(s@ =~= decimal(n as nat));
        s
    }
}

/// `s` without spaces, carriage returns and line feeds.
pub open spec fn without_breaks(s: Seq<char>) -> Seq<char>
    decreases s.len(),
{
    if s.len() == 0 {
        s
    } else if s.last() == ' ' || s.last() == '\r' || s.last() == '\n' {
        without_breaks(s.drop_last())
    } else {
        without_breaks(s.drop_last()).push(s.last())
    }
}

/// The link that the companion device scans to connect, with spaces and line
/// breaks taken out.
pub open spec fn connect_link(ip: Seq<char>, port: u16, password: Seq<char>) -> Seq<char> {
    without_breaks(
        "sideassist://connect?ip="@ + ip + "&port="@ + decimal(port as nat) + "&password="@ + password,
    )
}

fn strip_breaks(s: &String) -> (r: String)
    ensures
        r@ == without_breaks(s@),
{
    proof {
        reveal_strlit(" ");
        reveal_strlit("\r");
        reveal_strlit("\n");
    }
    let n = s.as_str().unicode_len();
    let mut r = String::new();
    let mut i: usize = 0;
    while i < n
        invariant
            n == s@.len(),
            0 <= i <= n,
            r@ == without_breaks(s@.take(i as int)),
        decreases n - i,
    {
        let c = s.as_str().get_char(i);
        assert(s@.take(i + 1).drop_last() =~= s@.take(i as int));
        assert(s@.take(i + 1).last() == c);
        if c != ' ' && c != '\r' && c != '\n' {
            let one = s.as_str().substring_char(i, i + 1);
            assert(one@ =~= seq![c]);
            r.append(one);
            assert(r@ =~= without_breaks(s@.take(i + 1)));
        }
        i = i + 1;
    }
    assert(s@.take(n as int) =~= s@);
    r
}

/// Builds the connection link for `ip`, `port` and `password`.
pub fn connect_url(ip: &str, port: u16, password: &str) -> (r: String)
    ensures
        r@ == connect_link(ip@, port, password@),
{
    let mut raw = String::from_str("sideassist://connect?ip=");
    raw.append(ip);
    raw.append("&port=");
    let p = decimal_text(port as u64);
    raw.append(p.as_str());
    raw.append("&password=");
    raw.append(password);
    strip_breaks(&raw)
}

impl ServerState {
    /// The pairing picture: a QR code of the connection link, made from the
    /// host's local address, the port and the one-time password. Fails without a
    /// valid password or a local address, or when the link does not fit in a QR
    /// code.
    pub fn generate_qr_code(&self, local_ip: Option<&str>, now_secs: u64) -> (r: Result<String, PairingError>)
        ensures
            self.one_time_password is None || self.password_expiry is None ==> r == Err::<String, PairingError>(
                PairingError::NoPassword,
            ),
            self.one_time_password is Some && self.password_expiry is Some && now_secs
                >= self.password_expiry->0 ==> r == Err::<String, PairingError>(PairingError::PasswordExpired),
            self.password_live(now_secs) && local_ip is None ==> r == Err::<String, PairingError>(
                PairingError::NoLocalAddress,
            ),
            r is Ok ==> self.password_live(now_secs) && local_ip is Some && r->Ok_0@ == qr_svg(
                connect_link(local_ip->0@, self.port, self.one_time_password->0@),
                QR_MIN_SIZE,
                QR_DARK@,
                QR_LIGHT@,
            ),
            self.password_live(now_secs) && local_ip is Some ==> {
                let link = connect_link(local_ip->0@, self.port, self.one_time_password->0@);
                &&& r is Ok <==> qr_fits(link)
                &&& !qr_fits(link) ==> r == Err::<String, PairingError>(PairingError::Encoding)
            },
    {
        let password = match (&self.one_time_password, self.password_expiry) {
            (Some(p), Some(e)) => {
                if now_secs >= e {
                    return Err(PairingError::PasswordExpired);
                }
                p
            },
            _ => {
                return Err(PairingError::NoPassword);
            },
        };
        let ip = match local_ip {
            Some(ip) => ip,
            None => {
                return Err(PairingError::NoLocalAddress);
            },
        };
        let link = connect_url(ip, self.port, password.as_str());
        match render_qr_svg(link.as_str(), QR_MIN_SIZE, QR_DARK, QR_LIGHT) {
            Ok(svg) => Ok(svg),
            Err(_) => Err(PairingError::Encoding),
        }
    }
}

} // verus!
