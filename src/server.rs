use rand::Rng;
use vstd::prelude::*;
use vstd::string::StringExecFns;

use crate::pairing::{digit_char, digit_str};
use crate::types::{ClientInfo, CustomAction, RecordingModalInfo, ServerStatus};

verus! {

/// The port the HTTP server listens on until the user picks another.
pub const DEFAULT_PORT: u16 = 8080;

/// Ports below this are not accepted.
pub const MIN_PORT: u16 = 1024;

/// How long (seconds) a one-time password stays valid.
pub const PASSWORD_LIFETIME_SECS: u64 = 300;

/// How many digits a one-time password has.
pub const PASSWORD_DIGITS: usize = 5;

/// A client that has not called the health check for longer than this (seconds)
/// is dropped.
pub const CLIENT_TIMEOUT_SECS: u64 = 15;

/// Why a server command was refused.
#[derive(Clone, Copy, Debug, PartialEq, Eq, Structural)]
pub enum ServerError {
    /// A start or stop of the server is under way.
    OperationInProgress,
    /// The server is running.
    AlreadyRunning,
    /// The port is below `MIN_PORT`.
    PortTooLow,
}

/// The state shared by the desktop commands, the HTTP handlers and the
/// keyboard hook: the server's status, its clients, the one-time password, the
/// saved macros and the recording session.
///
/// Client ids and macro ids are unique within their lists.
pub struct ServerState {
    pub running: bool,
    pub connected_clients: Vec<ClientInfo>,
    pub port: u16,
    pub one_time_password: Option<String>,
    pub password_expiry: Option<u64>,
    pub operation_in_progress: bool,
    pub custom_actions: Vec<CustomAction>,
    pub recording_modal_info: Option<RecordingModalInfo>,
}

pub open spec fn action_ids_unique(v: Seq<CustomAction>) -> bool {
    forall|i: int, j: int| 0 <= i < j < v.len() ==> v[i].id@ != v[j].id@
}

pub open spec fn client_ids_unique(v: Seq<ClientInfo>) -> bool {
    forall|i: int, j: int| 0 <= i < j < v.len() ==> v[i].id@ != v[j].id@
}

pub open spec fn has_action(v: Seq<CustomAction>, id: Seq<char>) -> bool {
    exists|i: int| 0 <= i < v.len() && v[i].id@ == id
}

/// `v` with `a` in place of the macro of the same id, or with `a` appended if
/// there is none.
pub open spec fn upserted(v: Seq<CustomAction>, a: CustomAction) -> Seq<CustomAction> {
    if has_action(v, a.id@) {
        v.update(choose|i: int| 0 <= i < v.len() && v[i].id@ == a.id@, a)
    } else {
        v.push(a)
    }
}

/// The macros of `v` inserted one after the other into `into`; a later macro
/// replaces an earlier one of the same id.
pub open spec fn upserted_all(into: Seq<CustomAction>, v: Seq<CustomAction>) -> Seq<CustomAction>
    decreases v.len(),
{
    if v.len() == 0 {
        into
    } else {
        upserted(upserted_all(into, v.drop_last()), v.last())
    }
}

pub open spec fn has_client(v: Seq<ClientInfo>, id: Seq<char>) -> bool {
    exists|i: int| 0 <= i < v.len() && v[i].id@ == id
}

/// Seconds from `then` to `now`, zero if the clock went back.
pub open spec fn secs_since(now: u64, then: u64) -> u64 {
    if now >= then {
        (now - then) as u64
    } else {
        0
    }
}

/// The clients of `v` that called the health check at most `CLIENT_TIMEOUT_SECS`
/// ago.
pub open spec fn live_clients(v: Seq<ClientInfo>, now: u64) -> Seq<ClientInfo>
    decreases v.len(),
{
    if v.len() == 0 {
        v
    } else if secs_since(now, v.last().last_health_check) > CLIENT_TIMEOUT_SECS {
        live_clients(v.drop_last(), now)
    } else {
        live_clients(v.drop_last(), now).push(v.last())
    }
}

proof fn lemma_live_clients(v: Seq<ClientInfo>, now: u64)
    requires
        client_ids_unique(v),
    ensures
        client_ids_unique(live_clients(v, now)),
        live_clients(v, now).len() <= v.len(),
        forall|a: int|
            0 <= a < live_clients(v, now).len() ==> exists|b: int|
                0 <= b < v.len() && #[trigger] live_clients(v, now)[a] == v[b],
    decreases v.len(),
{
    if v.len() > 0 {
        let d = v.drop_last();
        let l = v.last();
        assert(client_ids_unique(d)) by {
            assert forall|i: int, j: int| 0 <= i < j < d.len() implies d[i].id@ != d[j].id@ by {
                assert(d[i] == v[i] && d[j] == v[j]);
            }
        }
        lemma_live_clients(d, now);
        let ld = live_clients(d, now);
        assert forall|a: int| 0 <= a < ld.len() implies (#[trigger] ld[a]).id@ != l.id@ by {
            let b = choose|b: int| 0 <= b < d.len() && ld[a] == d[b];
            assert(d[b] == v[b]);
        }
        if secs_since(now, l.last_health_check) <= CLIENT_TIMEOUT_SECS {
            let lv = ld.push(l);
            assert(live_clients(v, now) == lv);
            assert forall|a: int| 0 <= a < lv.len() implies exists|b: int|
                0 <= b < v.len() && #[trigger] lv[a] == v[b] by {
                if a < ld.len() {
                    let b = choose|b: int| 0 <= b < d.len() && ld[a] == d[b];
                    assert(lv[a] == v[b]);
                } else {
                    assert(lv[a] == v[v.len() - 1]);
                }
            }
            assert forall|i: int, j: int| 0 <= i < j < lv.len() implies lv[i].id@ != lv[j].id@ by {
                if j == ld.len() {
                    assert(lv[i] == ld[i]);
                } else {
                    assert(lv[i] == ld[i] && lv[j] == ld[j]);
                }
            }
        } else {
            assert forall|a: int| 0 <= a < ld.len() implies exists|b: int|
                0 <= b < v.len() && #[trigger] ld[a] == v[b] by {
                let b = choose|b: int| 0 <= b < d.len() && ld[a] == d[b];
                assert(ld[a] == v[b]);
            }
        }
    }
}

/// When a password issued at `now` expires: `PASSWORD_LIFETIME_SECS` later,
/// or at the end of time.
pub open spec fn expiry_for(now: u64) -> u64 {
    if now <= u64::MAX - PASSWORD_LIFETIME_SECS {
        (now + PASSWORD_LIFETIME_SECS) as u64
    } else {
        u64::MAX
    }
}

/// Whether `c` is an ASCII decimal digit.
pub open spec fn is_digit_char(c: char) -> bool {
    '0' <= c && c <= '9'
}

/// The text of a sequence of decimal digits.
pub open spec fn digits_text(digits: Seq<u8>) -> Seq<char> {
    digits.map_values(|d: u8| digit_char(d as nat))
}

proof fn lemma_digits_text_are_digits(digits: Seq<u8>)
    requires
        forall|i: int| 0 <= i < digits.len() ==> digits[i] < 10,
    ensures
        forall|i: int| 0 <= i < digits_text(digits).len() ==> is_digit_char(#[trigger] digits_text(digits)[i]),
{
}

/// Writes decimal digits as text: each digit becomes its character.
pub fn password_from_digits(digits: &Vec<u8>) -> (r: String)
    requires
        forall|i: int| 0 <= i < digits@.len() ==> digits@[i] < 10,
    ensures
        r@ == digits_text(digits@),
{
    let mut r = String::new();
    let mut i: usize = 0;
    while i < digits.len()
        invariant
            0 <= i <= digits.len(),
            forall|j: int| 0 <= j < digits@.len() ==> digits@[j] < 10,
            r@ == digits_text(digits@.take(i as int)),
        decreases digits.len() - i,
    {
        r.append(digit_str(digits[i] as u64));
        i = i + 1;
        assert(r@ =~= digits_text(digits@.take(i as int)));
    }
    assert(digits@.take(digits.len() as int) =~= digits@);
    r
}

/// Two macros with the same fields.
pub open spec fn same_action(a: CustomAction, b: CustomAction) -> bool {
    &&& a.id == b.id
    &&& a.name == b.name
    &&& a.icon == b.icon
    &&& a.key_sequence@ == b.key_sequence@
    &&& a.created_at == b.created_at
    &&& a.shortcut_type == b.shortcut_type
}

/// Relies on rand's `Rng::gen_range`: a draw from `0..high` lies in that range
/// (the range must not be empty, or it panics).
#[verifier::external_body]
fn random_below(high: u8) -> (r: u8)
    requires
        high > 0,
    ensures
        r < high,
{
    rand::thread_rng().gen_range(0..high)
}

fn find_action(v: &Vec<CustomAction>, id: &String) -> (r: Option<usize>)
    ensures
        r matches Some(i) ==> i < v.len() && v@[i as int].id@ == id@,
        r is None ==> !has_action(v@, id@),
{
    let mut i: usize = 0;
    while i < v.len()
        invariant
            0 <= i <= v.len(),
            forall|j: int| 0 <= j < i ==> v@[j].id@ != id@,
        decreases v.len() - i,
    {
        if v[i].id == *id {
            return Some(i);
        }
        i = i + 1;
    }
    None
}

fn find_client(v: &Vec<ClientInfo>, id: &String) -> (r: Option<usize>)
    ensures
        r matches Some(i) ==> i < v.len() && v@[i as int].id@ == id@,
        r is None ==> !has_client(v@, id@),
{
    let mut i: usize = 0;
    while i < v.len()
        invariant
            0 <= i <= v.len(),
            forall|j: int| 0 <= j < i ==> v@[j].id@ != id@,
        decreases v.len() - i,
    {
        if v[i].id == *id {
            return Some(i);
        }
        i = i + 1;
    }
    None
}

/// Inserts `action` into a list of macros with unique ids, replacing the macro
/// of the same id.
pub fn upsert_action(v: &mut Vec<CustomAction>, action: CustomAction)
    requires
        action_ids_unique(old(v)@),
    ensures
        action_ids_unique(final(v)@),
        final(v)@ == upserted(old(v)@, action),
        has_action(final(v)@, action.id@),
{
    let ghost a = action;
    match find_action(v, &action.id) {
        Some(i) => {
            proof {
                let j = choose|j: int| 0 <= j < v@.len() && v@[j].id@ == a.id@;
                assert(j == i as int);
            }
            v.set(i, action);
            assert(v@[i as int].id@ == a.id@);
        },
        None => {
            v.push(action);
            assert(v@[v@.len() - 1].id@ == a.id@);
        },
    }
}

impl Default for ServerState {
    fn default() -> (r: Self)
        ensures
            r.wf(),
            !r.running,
            r.port == DEFAULT_PORT,
            r.connected_clients@.len() == 0,
            r.custom_actions@.len() == 0,
            r.recording_modal_info is None,
            r.one_time_password is None,
            r.password_expiry is None,
            !r.operation_in_progress,
    {
        ServerState::new()
    }
}

impl ServerState {
    pub open spec fn wf(&self) -> bool {
        &&& action_ids_unique(self.custom_actions@)
        &&& client_ids_unique(self.connected_clients@)
        &&& self.recording_modal_info matches Some(m) ==> !(m.is_recording && m.is_completed)
    }

    /// A stopped server on the default port, with no client, password, macro or
    /// session.
    pub fn new() -> (r: Self)
        ensures
            r.wf(),
            !r.running,
            r.connected_clients@.len() == 0,
            r.port == DEFAULT_PORT,
            r.one_time_password is None,
            r.password_expiry is None,
            !r.operation_in_progress,
            r.custom_actions@.len() == 0,
            r.recording_modal_info is None,
    {
        ServerState {
            running: false,
            connected_clients: Vec::new(),
            port: DEFAULT_PORT,
            one_time_password: None,
            password_expiry: None,
            operation_in_progress: false,
            custom_actions: Vec::new(),
            recording_modal_info: None,
        }
    }

    /// What the desktop UI shows of the server.
    pub fn get_server_status(&self) -> (r: ServerStatus)
        ensures
            r.running == self.running,
            r.connected_clients == self.connected_clients@.len(),
            r.port == self.port,
    {
        ServerStatus { running: self.running, connected_clients: self.connected_clients.len(), port: self.port }
    }

    /// Picks the port for the next start; refused while the server runs or is
    /// being started or stopped, and for ports below `MIN_PORT`.
    pub fn set_port(&mut self, port: u16) -> (r: Result<(), ServerError>)
        ensures
            old(self).operation_in_progress ==> r == Err::<(), ServerError>(ServerError::OperationInProgress),
            !old(self).operation_in_progress && old(self).running ==> r == Err::<(), ServerError>(
                ServerError::AlreadyRunning,
            ),
            !old(self).operation_in_progress && !old(self).running && port < MIN_PORT ==> r == Err::<
                (),
                ServerError,
            >(ServerError::PortTooLow),
            r is Ok <==> (!old(self).operation_in_progress && !old(self).running && port >= MIN_PORT),
            r is Ok ==> *final(self) == (ServerState { port, ..*old(self) }),
            r is Err ==> *final(self) == *old(self),
    {
        if self.operation_in_progress {
            return Err(ServerError::OperationInProgress);
        }
        if self.running {
            return Err(ServerError::AlreadyRunning);
        }
        if port < MIN_PORT {
            return Err(ServerError::PortTooLow);
        }
        self.port = port;
        Ok(())
    }

    /// First half of a server start: refused while an operation is under way or
    /// the server runs; otherwise marks the operation and returns the port to bind.
    pub fn begin_start(&mut self) -> (r: Result<u16, ServerError>)
        ensures
            old(self).operation_in_progress ==> r == Err::<u16, ServerError>(ServerError::OperationInProgress),
            !old(self).operation_in_progress && old(self).running ==> r == Err::<u16, ServerError>(
                ServerError::AlreadyRunning,
            ),
            r is Ok <==> (!old(self).operation_in_progress && !old(self).running),
            r is Ok ==> r == Ok::<u16, ServerError>(old(self).port) && *final(self) == (ServerState {
                operation_in_progress: true,
                ..*old(self)
            }),
            r is Err ==> *final(self) == *old(self),
    {
        if self.operation_in_progress {
            return Err(ServerError::OperationInProgress);
        }
        if self.running {
            return Err(ServerError::AlreadyRunning);
        }
        self.operation_in_progress = true;
        Ok(self.port)
    }

    /// Second half of a server start: the server runs if its port could be bound.
    pub fn finish_start(&mut self, bound: bool)
        ensures
            *final(self) == (ServerState { running: bound, operation_in_progress: false, ..*old(self) }),
    {
        self.running = bound;
        self.operation_in_progress = false;
    }

    /// First half of a server stop. Refused while an operation is under way;
    /// returns `false` if the server was not running. Otherwise the server is
    /// marked stopped, its clients dropped, the operation marked, and `true`
    /// returned; `end_operation` follows once the server has shut down.
    pub fn begin_stop(&mut self) -> (r: Result<bool, ServerError>)
        requires
            old(self).wf(),
        ensures
            final(self).wf(),
            old(self).operation_in_progress ==> r == Err::<bool, ServerError>(ServerError::OperationInProgress)
                && *final(self) == *old(self),
            !old(self).operation_in_progress && !old(self).running ==> r == Ok::<bool, ServerError>(false)
                && *final(self) == *old(self),
            !old(self).operation_in_progress && old(self).running ==> r == Ok::<bool, ServerError>(true)
                && final(self).connected_clients@.len() == 0 && !final(self).running
                && final(self).operation_in_progress && final(self).port == old(self).port
                && final(self).custom_actions == old(self).custom_actions
                && final(self).one_time_password == old(self).one_time_password
                && final(self).password_expiry == old(self).password_expiry
                && final(self).recording_modal_info == old(self).recording_modal_info,
    {
        if self.operation_in_progress {
            return Err(ServerError::OperationInProgress);
        }
        if !self.running {
            return Ok(false);
        }
        self.operation_in_progress = true;
        self.running = false;
        self.connected_clients = Vec::new();
        Ok(true)
    }

    /// Marks the end of a start or stop operation.
    pub fn end_operation(&mut self)
        ensures
            *final(self) == (ServerState { operation_in_progress: false, ..*old(self) }),
    {
        self.operation_in_progress = false;
    }

    /// Records that the server has shut down, for whatever reason.
    pub fn server_stopped(&mut self)
        requires
            old(self).wf(),
        ensures
            final(self).wf(),
            !final(self).running,
            !final(self).operation_in_progress,
            final(self).connected_clients@.len() == 0,
            final(self).port == old(self).port,
            final(self).custom_actions == old(self).custom_actions,
            final(self).one_time_password == old(self).one_time_password,
            final(self).password_expiry == old(self).password_expiry,
            final(self).recording_modal_info == old(self).recording_modal_info,
    {
        self.running = false;
        self.operation_in_progress = false;
        self.connected_clients = Vec::new();
    }

    /// Stores a new one-time password, valid for `PASSWORD_LIFETIME_SECS` from `now_secs`.
    pub fn set_one_time_password(&mut self, password: String, now_secs: u64)
        ensures
            final(self).one_time_password == Some(password),
            final(self).password_expiry == Some(expiry_for(now_secs)),
            *final(self) == (ServerState {
                one_time_password: final(self).one_time_password,
                password_expiry: final(self).password_expiry,
                ..*old(self)
            }),
    {
        self.one_time_password = Some(password);
        self.password_expiry = Some(now_secs.saturating_add(PASSWORD_LIFETIME_SECS));
    }

    /// Draws a fresh one-time password of `PASSWORD_DIGITS` random decimal
    /// digits, stores it, and returns it.
    pub fn generate_one_time_password(&mut self, now_secs: u64) -> (r: String)
        ensures
            exists|digits: Seq<u8>|
                digits.len() == PASSWORD_DIGITS && (forall|i: int| 0 <= i < digits.len() ==> digits[i] < 10)
                    && r@ == digits_text(digits),
            r@.len() == PASSWORD_DIGITS,
            forall|i: int| 0 <= i < r@.len() ==> is_digit_char(#[trigger] r@[i]),
            final(self).one_time_password == Some(r),
            final(self).password_expiry == Some(expiry_for(now_secs)),
            *final(self) == (ServerState {
                one_time_password: final(self).one_time_password,
                password_expiry: final(self).password_expiry,
                ..*old(self)
            }),
    {
        let mut digits: Vec<u8> = Vec::new();
        let mut i: usize = 0;
        while i < PASSWORD_DIGITS
            invariant
                0 <= i <= PASSWORD_DIGITS,
                digits@.len() == i,
                forall|j: int| 0 <= j < digits@.len() ==> digits@[j] < 10,
            decreases PASSWORD_DIGITS - i,
        {
            digits.push(random_below(10));
            i = i + 1;
        }
        let password = password_from_digits(&digits);
        proof {
            lemma_digits_text_are_digits(digits@);
        }
        let r = password.clone();
        self.set_one_time_password(password, now_secs);
        r
    }

    /// Whether a password is set and has not expired at `now_secs`.
    pub open spec fn password_live(&self, now_secs: u64) -> bool {
        &&& self.one_time_password is Some
        &&& self.password_expiry is Some
        &&& now_secs < self.password_expiry->0
    }

    /// The one-time password, while it is valid.
    pub fn get_current_password(&self, now_secs: u64) -> (r: Option<String>)
        ensures
            self.password_live(now_secs) ==> r == self.one_time_password,
            !self.password_live(now_secs) ==> r is None,
    {
        match (&self.one_time_password, self.password_expiry) {
            (Some(p), Some(e)) => if now_secs < e {
                Some(p.clone())
            } else {
                None
            },
            _ => None,
        }
    }

    /// Whether `provided` is the one-time password and that password is still valid.
    pub fn check_password(&self, provided: &String, now_secs: u64) -> (r: bool)
        ensures
            r == (self.password_live(now_secs) && self.one_time_password->0@ == provided@),
    {
        match (&self.one_time_password, self.password_expiry) {
            (Some(p), Some(e)) => *provided == *p && now_secs < e,
            _ => false,
        }
    }

    /// Whether a request that carries `password` may act: it must carry the valid
    /// one-time password.
    pub fn authorize(&self, password: &Option<String>, now_secs: u64) -> (r: bool)
        ensures
            r == (password is Some && self.password_live(now_secs) && self.one_time_password->0@
                == password->0@),
    {
        match password {
            Some(p) => self.check_password(p, now_secs),
            None => false,
        }
    }

    /// Notes a health check of client `client_id` at `now_secs` and returns the
    /// number of known clients.
    pub fn record_health_check(&mut self, client_id: String, now_secs: u64) -> (r: usize)
        requires
            old(self).wf(),
        ensures
            final(self).wf(),
            r == final(self).connected_clients@.len(),
            has_client(final(self).connected_clients@, client_id@),
            forall|i: int|
                0 <= i < final(self).connected_clients@.len() && final(self).connected_clients@[i].id@
                    == client_id@ ==> final(self).connected_clients@[i].last_health_check == now_secs,
            has_client(old(self).connected_clients@, client_id@) ==> final(self).connected_clients@.len()
                == old(self).connected_clients@.len(),
            !has_client(old(self).connected_clients@, client_id@) ==> final(self).connected_clients@.len()
                == old(self).connected_clients@.len() + 1,
            forall|id: Seq<char>|
                id != client_id@ ==> (has_client(final(self).connected_clients@, id) <==> has_client(
                    old(self).connected_clients@,
                    id,
                )),
            final(self).custom_actions == old(self).custom_actions,
            final(self).recording_modal_info == old(self).recording_modal_info,
            final(self).running == old(self).running,
            final(self).port == old(self).port,
    {
        let ghost old_clients = self.connected_clients@;
        let ghost cid = client_id@;
        let info = ClientInfo { id: client_id.clone(), last_health_check: now_secs };
        match find_client(&self.connected_clients, &client_id) {
            Some(i) => {
                self.connected_clients.set(i, info);
                let ghost v = self.connected_clients@;
                assert(v[i as int].id@ == cid);
                assert forall|id: Seq<char>| id != cid implies (has_client(v, id) <==> has_client(old_clients, id)) by {
                    if has_client(v, id) {
                        let j = choose|j: int| 0 <= j < v.len() && v[j].id@ == id;
                        assert(old_clients[j].id@ == id);
                    }
                    if has_client(old_clients, id) {
                        let j = choose|j: int| 0 <= j < old_clients.len() && old_clients[j].id@ == id;
                        assert(v[j].id@ == id);
                    }
                }
            },
            None => {
                self.connected_clients.push(info);
                let ghost v = self.connected_clients@;
                assert(v[v.len() - 1].id@ == cid);
                assert forall|id: Seq<char>| id != cid implies (has_client(v, id) <==> has_client(old_clients, id)) by {
                    if has_client(v, id) {
                        let j = choose|j: int| 0 <= j < v.len() && v[j].id@ == id;
                        assert(old_clients[j].id@ == id);
                    }
                    if has_client(old_clients, id) {
                        let j = choose|j: int| 0 <= j < old_clients.len() && old_clients[j].id@ == id;
                        assert(v[j].id@ == id);
                    }
                }
            },
        }
        self.connected_clients.len()
    }

    /// Drops the clients whose last health check is more than
    /// `CLIENT_TIMEOUT_SECS` before `now_secs`; returns how many were dropped.
    pub fn cleanup_inactive_clients(&mut self, now_secs: u64) -> (removed: usize)
        requires
            old(self).wf(),
        ensures
            final(self).wf(),
            final(self).connected_clients@ == live_clients(old(self).connected_clients@, now_secs),
            removed == old(self).connected_clients@.len() - final(self).connected_clients@.len(),
            final(self).custom_actions == old(self).custom_actions,
            final(self).recording_modal_info == old(self).recording_modal_info,
            final(self).running == old(self).running,
            final(self).port == old(self).port,
    {
        let mut kept: Vec<ClientInfo> = Vec::new();
        let mut i: usize = 0;
        let n = self.connected_clients.len();
        while i < n
            invariant
                n == self.connected_clients@.len(),
                0 <= i <= n,
                kept@ == live_clients(self.connected_clients@.take(i as int), now_secs),
            decreases n - i,
        {
            let ghost v = self.connected_clients@;
            assert(v.take(i + 1).drop_last() =~= v.take(i as int));
            assert(v.take(i + 1).last() == v[i as int]);
            let c = &self.connected_clients[i];
            if now_secs.saturating_sub(c.last_health_check) <= CLIENT_TIMEOUT_SECS {
                kept.push(ClientInfo { id: c.id.clone(), last_health_check: c.last_health_check });
            }
            i = i + 1;
        }
        let ghost v = self.connected_clients@;
        assert(v.take(n as int) =~= v);
        proof {
            lemma_live_clients(v, now_secs);
        }
        let removed = n - kept.len();
        self.connected_clients = kept;
        removed
    }

    /// Replaces the macros with those loaded from storage; of several with one
    /// id, the last wins.
    pub fn load_custom_actions(&mut self, actions: Vec<CustomAction>) -> (count: usize)
        requires
            old(self).wf(),
        ensures
            final(self).wf(),
            final(self).custom_actions@ == upserted_all(Seq::empty(), actions@),
            count == final(self).custom_actions@.len(),
            final(self).recording_modal_info == old(self).recording_modal_info,
            final(self).connected_clients == old(self).connected_clients,
            final(self).running == old(self).running,
            final(self).port == old(self).port,
    {
        let mut merged: Vec<CustomAction> = Vec::new();
        let ghost all = actions@;
        let mut rest = actions;
        let ghost mut k: int = 0;
        assert(all.take(0) =~= Seq::<CustomAction>::empty());
        while rest.len() > 0
            invariant
                0 <= k <= all.len(),
                rest@ == all.skip(k),
                merged@ == upserted_all(Seq::empty(), all.take(k)),
                action_ids_unique(merged@),
            decreases rest.len(),
        {
            let a = rest.remove(0);
            assert(a == all[k]);
            upsert_action(&mut merged, a);
            proof {
                assert(all.take(k + 1).drop_last() =~= all.take(k));
                assert(all.take(k + 1).last() == all[k]);
                k = k + 1;
            }
            assert(rest@ =~= all.skip(k));
        }
        assert(all.take(k) =~= all);
        self.custom_actions = merged;
        self.custom_actions.len()
    }

    /// Saves a macro under its id, replacing one of the same id.
    pub fn save_custom_action(&mut self, action: CustomAction)
        requires
            old(self).wf(),
        ensures
            final(self).wf(),
            final(self).custom_actions@ == upserted(old(self).custom_actions@, action),
            final(self).recording_modal_info == old(self).recording_modal_info,
            final(self).connected_clients == old(self).connected_clients,
            final(self).running == old(self).running,
            final(self).port == old(self).port,
    {
        upsert_action(&mut self.custom_actions, action);
    }

    /// The saved macro with this id.
    pub fn find_custom_action(&self, id: &String) -> (r: Option<&CustomAction>)
        ensures
            r matches Some(a) ==> has_action(self.custom_actions@, id@) && a.id@ == id@
                && self.custom_actions@.contains(*a),
            r is None ==> !has_action(self.custom_actions@, id@),
    {
        match find_action(&self.custom_actions, id) {
            Some(i) => {
                assert(self.custom_actions@[i as int].id@ == id@);
                Some(&self.custom_actions[i])
            },
            None => None,
        }
    }

    /// Copies of all saved macros, in order.
    pub fn get_all_custom_actions(&self) -> (r: Vec<CustomAction>)
        ensures
            r@.len() == self.custom_actions@.len(),
            forall|i: int| 0 <= i < r@.len() ==> same_action(#[trigger] r@[i], self.custom_actions@[i]),
    {
        let mut r: Vec<CustomAction> = Vec::new();
        let mut i: usize = 0;
        while i < self.custom_actions.len()
            invariant
                0 <= i <= self.custom_actions@.len(),
                r@.len() == i,
                forall|j: int| 0 <= j < i ==> same_action(#[trigger] r@[j], self.custom_actions@[j]),
            decreases self.custom_actions@.len() - i,
        {
            r.push(self.custom_actions[i].duplicate());
            i = i + 1;
        }
        r
    }
}

} // verus!
