//! Pairing of remote devices with the clipboard server: pending pairing
//! sessions keyed by a six-digit code, the devices paired so far keyed by
//! their id, and the decisions of the pairing and clipboard endpoints.
//! Times are milliseconds since the Unix epoch.

use vstd::prelude::*;

use crate::text::owned;
use vstd::string::StrSliceExecFns;
use crate::keys::same_text;
use crate::keyed::{
    keys_unique, keyed_map, lemma_keyed_contains, lemma_keyed_value, lemma_keyed_absent,
    lemma_keyed_push, lemma_keyed_update, lemma_keyed_remove,
};

verus! {

/// How long a pairing code stays valid: ten minutes, in milliseconds.
pub const PAIR_CODE_VALIDITY_MS: i64 = 600_000;

/// How long a token handed out at pairing lasts, in seconds: one week.
pub const TOKEN_LIFETIME_SECS: u64 = 604_800;

/// Where a pairing session stands.
#[derive(Debug, Clone, Copy, PartialEq, Eq, Structural)]
pub enum PairStatus {
    Pending,
    Confirmed,
    Rejected,
}

/// Why a request to the server was refused.
#[derive(Debug, Clone)]
pub enum ApiError {
    InvalidRequest(String),
    PairAlreadyConfirmed,
    PairCodeNotFound,
    PairCodeExpired,
    HashMismatch,
    ClipboardReadFailed(String),
    ClipboardWriteFailed(String),
    InvalidToken,
    TokenExpired,
}

/// A paired device: id, name, token, paired and last seen times, and
/// whether its requests are approved without asking.
#[derive(Debug)]
pub struct PairedDevice {
    pub device_id: String,
    pub device_name: String,
    pub token: String,
    pub paired_at: i64,
    pub last_seen: i64,
    pub auto_approve: bool,
}

/// A device's id, name, token, paired and last seen times, and auto approval.
pub type DeviceView = (Seq<char>, Seq<char>, Seq<char>, i64, i64, bool);

impl View for PairedDevice {
    type V = DeviceView;

    open spec fn view(&self) -> DeviceView {
        (
            self.device_id@,
            self.device_name@,
            self.token@,
            self.paired_at,
            self.last_seen,
            self.auto_approve,
        )
    }
}

/// A pending pairing: its code, the device asking, when it was created and
/// when it expires, and its status.
#[derive(Debug)]
pub struct PairSession {
    pub code: String,
    pub device_id: String,
    pub device_name: String,
    pub created_at: i64,
    pub expires_at: i64,
    pub status: PairStatus,
}

/// A session's code, device id and name, creation and expiry times, and status.
pub type SessionView = (Seq<char>, Seq<char>, Seq<char>, i64, i64, PairStatus);

impl View for PairSession {
    type V = SessionView;

    open spec fn view(&self) -> SessionView {
        (
            self.code@,
            self.device_id@,
            self.device_name@,
            self.created_at,
            self.expires_at,
            self.status,
        )
    }
}

/// Six decimal digits of `n`, with leading zeros (`format!("{:06}", n)` for n < 10^6).
pub open spec fn six_digits(n: nat) -> Seq<char> {
    Seq::new(6, |j: int| crate::text::digit_char(((n / pow10((5 - j) as nat)) % 10) as nat))
}

/// 10 to the power `e`.
pub open spec fn pow10(e: nat) -> nat
    decreases e,
{
    if e == 0 {
        1
    } else {
        10 * pow10((e - 1) as nat)
    }
}

proof fn lemma_pow10_small()
    ensures
        pow10(0) == 1,
        pow10(1) == 10,
        pow10(2) == 100,
        pow10(3) == 1000,
        pow10(4) == 10_000,
        pow10(5) == 100_000,
{
    assert(pow10(0) == 1);
    assert(pow10(1) == 10);
    assert(pow10(2) == 100);
    assert(pow10(3) == 1000);
    assert(pow10(4) == 10_000);
    assert(pow10(5) == 100_000);
}

/// The pairing code drawn from three random bytes: their value read big
/// endian, modulo a million, in six digits.
pub open spec fn code_of(b0: u8, b1: u8, b2: u8) -> Seq<char> {
    six_digits(((b0 as nat) * 65536 + (b1 as nat) * 256 + (b2 as nat)) % 1_000_000)
}

/// The pairing code for three random bytes.
pub fn pair_code_from(b0: u8, b1: u8, b2: u8) -> (r: String)
    ensures
        r@ == code_of(b0, b1, b2),
{
    let num: u32 = (((b0 as u32) << 16) | ((b1 as u32) << 8) | (b2 as u32)) % 1_000_000;
    assert((((b0 as u32) << 16) | ((b1 as u32) << 8) | (b2 as u32)) == (b0 as u32) * 65536 + (b1 as u32) * 256 + (b2 as u32)) by (bit_vector);
    let mut v: Vec<char> = Vec::new();
    let mut div: u32 = 100_000;
    let mut j: usize = 0;
    let ghost n = num as nat;
    proof {
        lemma_pow10_small();
    }
    while j < 6
        invariant
            j <= 6,
            v@.len() == j,
            n == num,
            num < 1_000_000,
            div == pow10((5 - j) as nat) || j == 6,
            j < 6 ==> div == pow10((5 - j) as nat),
            forall|i: int| 0 <= i < j ==> v@[i] == crate::text::digit_char(((n / pow10((5 - i) as nat)) % 10) as nat),
        decreases 6 - j,
    {
        proof {
            lemma_pow10_small();
        }
        let d = (num / div) % 10;
        let c = ((d as u8) + 0x30) as char;
        assert(c == crate::text::digit_char(d as nat));
        v.push(c);
        j = j + 1;
        if j < 6 {
            div = div / 10;
        }
    }
    assert(v@ =~= six_digits(n));
    crate::text::string_of(v.as_slice())
}

/// Three bytes of a fresh random (version 4) UUID. Nothing is claimed of
/// their values.
#[verifier::external_body]
fn random_code_bytes() -> (r: (u8, u8, u8)) {
    let id = uuid::Uuid::new_v4();
    let b = id.as_bytes();
    (b[0], b[1], b[2])
}

/// A fresh random six-digit pairing code.
pub fn generate_pair_code() -> (r: String)
    ensures
        exists|b0: u8, b1: u8, b2: u8| r@ == code_of(b0, b1, b2),
{
    let (b0, b1, b2) = random_code_bytes();
    pair_code_from(b0, b1, b2)
}

impl PairSession {
    /// A pending session for the device, with `code`, created at `now` and
    /// valid for ten minutes.
    pub fn new(device_id: String, device_name: String, code: String, now: i64) -> (s: Self)
        requires
            now <= i64::MAX - PAIR_CODE_VALIDITY_MS,
        ensures
            s@ == (code@, device_id@, device_name@, now, (now + PAIR_CODE_VALIDITY_MS) as i64, PairStatus::Pending),
    {
        PairSession {
            code,
            device_id,
            device_name,
            created_at: now,
            expires_at: now + PAIR_CODE_VALIDITY_MS,
            status: PairStatus::Pending,
        }
    }

    /// Whether the session has expired at `now`.
    pub fn is_expired(&self, now: i64) -> (b: bool)
        ensures
            b == (self.expires_at < now),
    {
        self.expires_at < now
    }

    /// Whole seconds left at `now` before the session expires, 0 once it has.
    pub fn expires_in_seconds(&self, now: i64) -> (r: u64)
        ensures
            r == (if self.expires_at > now {
                ((self.expires_at - now) / 1000) as u64
            } else {
                0
            }),
    {
        if self.expires_at > now {
            let d: i128 = (self.expires_at as i128) - (now as i128);
            (d / 1000) as u64
        } else {
            0
        }
    }

    /// A copy of the session.
    pub fn duplicate(&self) -> (s: Self)
        ensures
            s@ == self@,
    {
        PairSession {
            code: owned(self.code.as_str()),
            device_id: owned(self.device_id.as_str()),
            device_name: owned(self.device_name.as_str()),
            created_at: self.created_at,
            expires_at: self.expires_at,
            status: self.status,
        }
    }
}

impl PairedDevice {
    /// A copy of the device.
    pub fn duplicate(&self) -> (d: Self)
        ensures
            d@ == self@,
    {
        PairedDevice {
            device_id: owned(self.device_id.as_str()),
            device_name: owned(self.device_name.as_str()),
            token: owned(self.token.as_str()),
            paired_at: self.paired_at,
            last_seen: self.last_seen,
            auto_approve: self.auto_approve,
        }
    }
}

/// The devices of a list, keyed by id.
pub open spec fn device_entries(s: Seq<PairedDevice>) -> Seq<(Seq<char>, DeviceView)> {
    s.map_values(|d: PairedDevice| (d.device_id@, d@))
}

/// The sessions of a list, keyed by code.
pub open spec fn session_entries(s: Seq<PairSession>) -> Seq<(Seq<char>, SessionView)> {
    s.map_values(|p: PairSession| (p.code@, p@))
}

/// The paired devices and the pending pairing sessions.
pub struct PairStore {
    config_dir: String,
    paired_devices: Vec<PairedDevice>,
    pending_sessions: Vec<PairSession>,
}

impl PairStore {
    #[verifier::type_invariant]
    closed spec fn keys_distinct(self) -> bool {
        &&& keys_unique(device_entries(self.paired_devices@))
        &&& keys_unique(session_entries(self.pending_sessions@))
    }

    /// The paired devices by id.
    pub closed spec fn devices(self) -> Map<Seq<char>, DeviceView> {
        keyed_map(device_entries(self.paired_devices@))
    }

    /// The pending sessions by code.
    pub closed spec fn sessions(self) -> Map<Seq<char>, SessionView> {
        keyed_map(session_entries(self.pending_sessions@))
    }

    /// The directory the store is saved in.
    pub closed spec fn dir(self) -> Seq<char> {
        self.config_dir@
    }

    fn find_device(&self, device_id: &str) -> (r: Option<usize>)
        ensures
            match r {
                Some(i) => i < self.paired_devices@.len() && self.paired_devices@[i as int].device_id@
                    == device_id@,
                None => forall|i: int|
                    0 <= i < self.paired_devices@.len() ==> (#[trigger] self.paired_devices@[i]).device_id@
                        != device_id@,
            },
    {
        let mut i: usize = 0;
        while i < self.paired_devices.len()
            invariant
                i <= self.paired_devices@.len(),
                forall|j: int| 0 <= j < i ==> (#[trigger] self.paired_devices@[j]).device_id@ != device_id@,
            decreases self.paired_devices.len() - i,
        {
            if same_text(self.paired_devices[i].device_id.as_str(), device_id) {
                return Some(i);
            }
            i = i + 1;
        }
        None
    }

    fn find_session(&self, code: &str) -> (r: Option<usize>)
        ensures
            match r {
                Some(i) => i < self.pending_sessions@.len() && self.pending_sessions@[i as int].code@
                    == code@,
                None => forall|i: int|
                    0 <= i < self.pending_sessions@.len() ==> (#[trigger] self.pending_sessions@[i]).code@
                        != code@,
            },
    {
        let mut i: usize = 0;
        while i < self.pending_sessions.len()
            invariant
                i <= self.pending_sessions@.len(),
                forall|j: int| 0 <= j < i ==> (#[trigger] self.pending_sessions@[j]).code@ != code@,
            decreases self.pending_sessions.len() - i,
        {
            if same_text(self.pending_sessions[i].code.as_str(), code) {
                return Some(i);
            }
            i = i + 1;
        }
        None
    }

    /// The store saved in `config_dir`, holding `devices` (a later device
    /// with the same id replaces an earlier one) and no pending session.
    pub fn load_from(config_dir: &str, devices: Vec<PairedDevice>) -> (s: Self)
        ensures
            s.devices() == keyed_map(device_entries(devices@)),
            s.sessions() == Map::<Seq<char>, SessionView>::empty(),
            s.dir() == config_dir@,
    {
        let mut devices = devices;
        let ghost all = device_entries(devices@);
        let mut out: Vec<PairedDevice> = Vec::new();
        let mut k: usize = 0;
        let n = devices.len();
        assert(all.take(0) =~= Seq::<(Seq<char>, DeviceView)>::empty());
        assert(device_entries(out@) =~= Seq::<(Seq<char>, DeviceView)>::empty());
        while devices.len() > 0
            invariant
                k + devices@.len() == n,
                all.len() == n,
                forall|j: int| 0 <= j < devices@.len() ==> (#[trigger] devices@[j])@ == all[k + j].1
                    && devices@[j].device_id@ == all[k + j].0,
                keys_unique(device_entries(out@)),
                keyed_map(device_entries(out@)) == keyed_map(all.take(k as int)),
            decreases devices.len(),
        {
            let d = devices.remove(0);
            assert(d@ == all[k as int].1 && d.device_id@ == all[k as int].0);
            let tmp = PairStore { config_dir: owned(""), paired_devices: out, pending_sessions: Vec::new() };
            proof {
                assert(session_entries(tmp.pending_sessions@) =~= Seq::<(Seq<char>, SessionView)>::empty());
            }
            let found = tmp.find_device(d.device_id.as_str());
            out = tmp.paired_devices;
            let ghost before = device_entries(out@);
            assert(all.take(k + 1).drop_last() =~= all.take(k as int));
            match found {
                Some(i) => {
                    proof {
                        assert(before[i as int].0 == d.device_id@);
                        lemma_keyed_update(before, i as int, (d.device_id@, d@));
                    }
                    out.set(i, d);
                    assert(device_entries(out@) =~= before.update(i as int, all[k as int]));
                },
                None => {
                    proof {
                        assert forall|j: int| 0 <= j < before.len() implies (#[trigger] before[j]).0 != d.device_id@ by {
                            assert(before[j].0 == out@[j].device_id@);
                        }
                        lemma_keyed_push(before, (d.device_id@, d@));
                    }
                    out.push(d);
                    assert(device_entries(out@) =~= before.push(all[k as int]));
                },
            }
            k = k + 1;
            assert forall|j: int| 0 <= j < devices@.len() implies (#[trigger] devices@[j])@ == all[k + j].1
                && devices@[j].device_id@ == all[k + j].0 by {
            }
        }
        assert(all.take(k as int) =~= all);
        let s = PairStore { config_dir: owned(config_dir), paired_devices: out, pending_sessions: Vec::new() };
        assert(session_entries(s.pending_sessions@) =~= Seq::<(Seq<char>, SessionView)>::empty());
        s
    }

    /// The directory the store is saved in.
    pub fn config_dir(&self) -> (r: &str)
        ensures
            r@ == self.dir(),
    {
        self.config_dir.as_str()
    }

    /// Adds a pending session for the device under `code`, created at `now`
    /// (replacing a session with the same code), and returns it.
    pub fn create_session_with_code(
        &mut self,
        device_id: String,
        device_name: String,
        code: String,
        now: i64,
    ) -> (s: PairSession)
        requires
            now <= i64::MAX - PAIR_CODE_VALIDITY_MS,
        ensures
            s@ == (code@, device_id@, device_name@, now, (now + PAIR_CODE_VALIDITY_MS) as i64, PairStatus::Pending),
            final(self).sessions() == old(self).sessions().insert(code@, s@),
            final(self).devices() == old(self).devices(),
            final(self).dir() == old(self).dir(),
    {
        proof {
            use_type_invariant(&*self);
        }
        let session = PairSession::new(device_id, device_name, code, now);
        let stored = session.duplicate();
        let found = self.find_session(session.code.as_str());
        let ghost before = session_entries(self.pending_sessions@);
        let mut sessions: Vec<PairSession> = Vec::new();
        std::mem::swap(&mut sessions, &mut self.pending_sessions);
        match found {
            Some(i) => {
                proof {
                    assert(before[i as int].0 == session.code@);
                    lemma_keyed_update(before, i as int, (session.code@, session@));
                }
                sessions.set(i, stored);
                assert(session_entries(sessions@) =~= before.update(i as int, (session.code@, session@)));
            },
            None => {
                proof {
                    assert forall|j: int| 0 <= j < before.len() implies (#[trigger] before[j]).0 != session.code@ by {
                        assert(before[j].0 == sessions@[j].code@);
                    }
                    lemma_keyed_push(before, (session.code@, session@));
                }
                sessions.push(stored);
                assert(session_entries(sessions@) =~= before.push((session.code@, session@)));
            },
        }
        self.pending_sessions = sessions;
        session
    }

    /// Adds a pending session with a fresh random code for the device.
    pub fn create_session(&mut self, device_id: String, device_name: String, now: i64) -> (s: PairSession)
        requires
            now <= i64::MAX - PAIR_CODE_VALIDITY_MS,
        ensures
            s@.1 == device_id@ && s@.2 == device_name@ && s@.3 == now && s@.4 == now + PAIR_CODE_VALIDITY_MS
                && s@.5 == PairStatus::Pending,
            exists|b0: u8, b1: u8, b2: u8| s@.0 == code_of(b0, b1, b2),
            final(self).sessions() == old(self).sessions().insert(s@.0, s@),
            final(self).devices() == old(self).devices(),
            final(self).dir() == old(self).dir(),
    {
        let code = generate_pair_code();
        self.create_session_with_code(device_id, device_name, code, now)
    }

    /// The pending session with `code`.
    pub fn get_session(&self, code: &str) -> (r: Option<&PairSession>)
        ensures
            match r {
                Some(s) => self.sessions().contains_key(code@) && self.sessions()[code@] == s@,
                None => !self.sessions().contains_key(code@),
            },
    {
        proof {
            use_type_invariant(self);
        }
        match self.find_session(code) {
            Some(i) => {
                proof {
                    lemma_keyed_value(session_entries(self.pending_sessions@), i as int);
                }
                Some(&self.pending_sessions[i])
            },
            None => {
                proof {
                    let e = session_entries(self.pending_sessions@);
                    assert forall|j: int| 0 <= j < e.len() implies (#[trigger] e[j]).0 != code@ by {
                        assert(e[j].0 == self.pending_sessions@[j].code@);
                    }
                    lemma_keyed_absent(e, code@);
                }
                None
            },
        }
    }

    /// Drops the pending session with `code`, if any.
    pub fn remove_session(&mut self, code: &str)
        ensures
            final(self).sessions() == old(self).sessions().remove(code@),
            final(self).devices() == old(self).devices(),
            final(self).dir() == old(self).dir(),
    {
        proof {
            use_type_invariant(&*self);
        }
        let found = self.find_session(code);
        let ghost before = session_entries(self.pending_sessions@);
        match found {
            Some(i) => {
                let mut sessions: Vec<PairSession> = Vec::new();
        std::mem::swap(&mut sessions, &mut self.pending_sessions);
                proof {
                    lemma_keyed_remove(before, i as int);
                }
                let _ = sessions.remove(i);
                assert(session_entries(sessions@) =~= before.remove(i as int));
                self.pending_sessions = sessions;
            },
            None => {
                proof {
                    assert forall|j: int| 0 <= j < before.len() implies (#[trigger] before[j]).0 != code@ by {
                        assert(before[j].0 == self.pending_sessions@[j].code@);
                    }
                    lemma_keyed_absent(before, code@);
                    assert(keyed_map(before).remove(code@) =~= keyed_map(before));
                }
            },
        }
    }

    /// Stores `device` under its id, replacing a device with the same id.
    fn put_device(&mut self, device: PairedDevice)
        ensures
            final(self).devices() == old(self).devices().insert(device.device_id@, device@),
            final(self).sessions() == old(self).sessions(),
            final(self).dir() == old(self).dir(),
    {
        proof {
            use_type_invariant(&*self);
        }
        let found = self.find_device(device.device_id.as_str());
        let ghost before = device_entries(self.paired_devices@);
        let mut devices: Vec<PairedDevice> = Vec::new();
        std::mem::swap(&mut devices, &mut self.paired_devices);
        match found {
            Some(i) => {
                proof {
                    assert(before[i as int].0 == device.device_id@);
                    lemma_keyed_update(before, i as int, (device.device_id@, device@));
                }
                devices.set(i, device);
                assert(device_entries(devices@) =~= before.update(i as int, (device.device_id@, device@)));
            },
            None => {
                proof {
                    assert forall|j: int| 0 <= j < before.len() implies (#[trigger] before[j]).0 != device.device_id@ by {
                        assert(before[j].0 == devices@[j].device_id@);
                    }
                    lemma_keyed_push(before, (device.device_id@, device@));
                }
                devices.push(device);
                assert(device_entries(devices@) =~= before.push((device.device_id@, device@)));
            },
        }
        self.paired_devices = devices;
    }

    /// Confirms the pairing with `code` at `now`: the device is paired with
    /// `token` and the session is dropped. Refused when there is no such
    /// session, when it has expired, or when it is no longer pending; then
    /// nothing changes.
    pub fn confirm_session(&mut self, code: &str, token: String, now: i64) -> (r: Result<PairedDevice, ApiError>)
        ensures
            !old(self).sessions().contains_key(code@) ==> (r matches Err(ApiError::PairCodeNotFound)
                && *final(self) == *old(self)),
            old(self).sessions().contains_key(code@) && old(self).sessions()[code@].4 < now ==> (
            r matches Err(ApiError::PairCodeExpired) && *final(self) == *old(self)),
            old(self).sessions().contains_key(code@) && old(self).sessions()[code@].4 >= now
                && old(self).sessions()[code@].5 != PairStatus::Pending ==> (r matches Err(
                ApiError::PairAlreadyConfirmed,
            ) && *final(self) == *old(self)),
            old(self).sessions().contains_key(code@) && old(self).sessions()[code@].4 >= now
                && old(self).sessions()[code@].5 == PairStatus::Pending ==> ({
                let s = old(self).sessions()[code@];
                &&& r matches Ok(d) && d@ == (s.1, s.2, token@, now, now, false)
                &&& final(self).devices() == old(self).devices().insert(s.1, (s.1, s.2, token@, now, now, false))
                &&& final(self).sessions() == old(self).sessions().remove(code@)
                &&& final(self).dir() == old(self).dir()
            }),
    {
        let (device_id, device_name) = match self.get_session(code) {
            None => return Err(ApiError::PairCodeNotFound),
            Some(s) => {
                if s.is_expired(now) {
                    return Err(ApiError::PairCodeExpired);
                }
                if s.status != PairStatus::Pending {
                    return Err(ApiError::PairAlreadyConfirmed);
                }
                (owned(s.device_id.as_str()), owned(s.device_name.as_str()))
            },
        };
        let device = PairedDevice {
            device_id,
            device_name,
            token,
            paired_at: now,
            last_seen: now,
            auto_approve: false,
        };
        let result = device.duplicate();
        self.put_device(device);
        self.remove_session(code);
        Ok(result)
    }

    /// Rejects the pairing with `code`: the session is dropped. Refused
    /// when there is no such session.
    pub fn reject_session(&mut self, code: &str) -> (r: Result<(), ApiError>)
        ensures
            !old(self).sessions().contains_key(code@) ==> (r matches Err(ApiError::PairCodeNotFound)
                && *final(self) == *old(self)),
            old(self).sessions().contains_key(code@) ==> (r is Ok && final(self).sessions()
                == old(self).sessions().remove(code@) && final(self).devices() == old(self).devices()
                && final(self).dir() == old(self).dir()),
    {
        match self.get_session(code) {
            None => Err(ApiError::PairCodeNotFound),
            Some(_) => {
                self.remove_session(code);
                Ok(())
            },
        }
    }

    /// The paired device with id `device_id`.
    pub fn get_device(&self, device_id: &str) -> (r: Option<&PairedDevice>)
        ensures
            match r {
                Some(d) => self.devices().contains_key(device_id@) && self.devices()[device_id@] == d@
                    && d.device_id@ == device_id@,
                None => !self.devices().contains_key(device_id@),
            },
    {
        proof {
            use_type_invariant(self);
        }
        match self.find_device(device_id) {
            Some(i) => {
                proof {
                    lemma_keyed_value(device_entries(self.paired_devices@), i as int);
                }
                Some(&self.paired_devices[i])
            },
            None => {
                proof {
                    let e = device_entries(self.paired_devices@);
                    assert forall|j: int| 0 <= j < e.len() implies (#[trigger] e[j]).0 != device_id@ by {
                        assert(e[j].0 == self.paired_devices@[j].device_id@);
                    }
                    lemma_keyed_absent(e, device_id@);
                }
                None
            },
        }
    }

    /// A paired device holding `token`, if any.
    pub fn get_device_by_token(&self, token: &str) -> (r: Option<&PairedDevice>)
        ensures
            match r {
                Some(d) => self.devices().contains_key(d.device_id@) && self.devices()[d.device_id@]
                    == d@ && d.token@ == token@,
                None => forall|k: Seq<char>|
                    #[trigger] self.devices().contains_key(k) ==> self.devices()[k].2 != token@,
            },
    {
        proof {
            use_type_invariant(self);
        }
        let ghost e = device_entries(self.paired_devices@);
        let mut i: usize = 0;
        while i < self.paired_devices.len()
            invariant
                i <= self.paired_devices@.len(),
                e == device_entries(self.paired_devices@),
                keys_unique(e),
                forall|j: int| 0 <= j < i ==> (#[trigger] self.paired_devices@[j]).token@ != token@,
            decreases self.paired_devices.len() - i,
        {
            if same_text(self.paired_devices[i].token.as_str(), token) {
                proof {
                    lemma_keyed_value(e, i as int);
                }
                return Some(&self.paired_devices[i]);
            }
            i = i + 1;
        }
        proof {
            assert forall|k: Seq<char>| #[trigger] self.devices().contains_key(k) implies self.devices()[k].2
                != token@ by {
                lemma_keyed_contains(e, k);
                let j = choose|j: int| 0 <= j < e.len() && (#[trigger] e[j]).0 == k;
                lemma_keyed_value(e, j);
                assert(e[j].1 == self.paired_devices@[j]@);
            }
        }
        None
    }

    /// Marks the device with id `device_id` as seen at `now`; whether there
    /// is such a device.
    pub fn update_last_seen(&mut self, device_id: &str, now: i64) -> (found: bool)
        ensures
            found == old(self).devices().contains_key(device_id@),
            found ==> final(self).devices() == old(self).devices().insert(device_id@, {
                let d = old(self).devices()[device_id@];
                (d.0, d.1, d.2, d.3, now, d.5)
            }),
            !found ==> final(self).devices() == old(self).devices(),
            final(self).sessions() == old(self).sessions(),
            final(self).dir() == old(self).dir(),
    {
        let updated = match self.get_device(device_id) {
            Some(d) => PairedDevice {
                device_id: owned(d.device_id.as_str()),
                device_name: owned(d.device_name.as_str()),
                token: owned(d.token.as_str()),
                paired_at: d.paired_at,
                last_seen: now,
                auto_approve: d.auto_approve,
            },
            None => return false,
        };
        self.put_device(updated);
        true
    }

    /// The paired devices.
    pub fn list_devices(&self) -> (r: &Vec<PairedDevice>)
        ensures
            keys_unique(device_entries(r@)),
            keyed_map(device_entries(r@)) == self.devices(),
    {
        proof {
            use_type_invariant(self);
        }
        &self.paired_devices
    }

    /// Unpairs the device with id `device_id`.
    pub fn remove_device(&mut self, device_id: &str)
        ensures
            final(self).devices() == old(self).devices().remove(device_id@),
            final(self).sessions() == old(self).sessions(),
            final(self).dir() == old(self).dir(),
    {
        proof {
            use_type_invariant(&*self);
        }
        let found = self.find_device(device_id);
        let ghost before = device_entries(self.paired_devices@);
        match found {
            Some(i) => {
                let mut devices: Vec<PairedDevice> = Vec::new();
        std::mem::swap(&mut devices, &mut self.paired_devices);
                proof {
                    lemma_keyed_remove(before, i as int);
                }
                let _ = devices.remove(i);
                assert(device_entries(devices@) =~= before.remove(i as int));
                self.paired_devices = devices;
            },
            None => {
                proof {
                    assert forall|j: int| 0 <= j < before.len() implies (#[trigger] before[j]).0 != device_id@ by {
                        assert(before[j].0 == self.paired_devices@[j].device_id@);
                    }
                    lemma_keyed_absent(before, device_id@);
                    assert(keyed_map(before).remove(device_id@) =~= keyed_map(before));
                }
            },
        }
    }

    /// Whether the device with id `device_id` is paired.
    pub fn is_device_paired(&self, device_id: &str) -> (b: bool)
        ensures
            b == self.devices().contains_key(device_id@),
    {
        self.get_device(device_id).is_some()
    }
}

/// Handles a pairing request: the device id and name must not be empty and
/// the device must not be paired yet; then a session is opened at `now`
/// and its code and seconds of validity are returned.
pub fn pair_request(store: &mut PairStore, device_id: String, device_name: String, now: i64) -> (r: Result<
    (String, u64),
    ApiError,
>)
    requires
        now <= i64::MAX - PAIR_CODE_VALIDITY_MS,
    ensures
        (device_id@.len() == 0 || device_name@.len() == 0) ==> (r matches Err(
            ApiError::InvalidRequest(m),
        ) && m@ == "device_id and device_name required"@ && *final(store) == *old(store)),
        (device_id@.len() > 0 && device_name@.len() > 0 && old(store).devices().contains_key(device_id@))
            ==> (r matches Err(ApiError::PairAlreadyConfirmed) && *final(store) == *old(store)),
        (device_id@.len() > 0 && device_name@.len() > 0 && !old(store).devices().contains_key(device_id@))
            ==> (r matches Ok((code, secs)) && secs == 600 && final(store).sessions() == old(store).sessions().insert(
            code@,
            (code@, device_id@, device_name@, now, (now + PAIR_CODE_VALIDITY_MS) as i64, PairStatus::Pending),
        ) && final(store).devices() == old(store).devices() && (exists|b0: u8, b1: u8, b2: u8|
            code@ == code_of(b0, b1, b2))),
{
    if device_id.as_str().unicode_len() == 0 || device_name.as_str().unicode_len() == 0 {
        return Err(ApiError::InvalidRequest(owned("device_id and device_name required")));
    }
    if store.is_device_paired(device_id.as_str()) {
        return Err(ApiError::PairAlreadyConfirmed);
    }
    let session = store.create_session(device_id, device_name, now);
    let secs = session.expires_in_seconds(now);
    (Ok((session.code, secs)))
}

/// Reports on the pairing session `code` at `now`: its status and seconds
/// of validity left. An expired session is dropped and refused.
pub fn pair_status(store: &mut PairStore, code: &str, now: i64) -> (r: Result<(PairStatus, u64), ApiError>)
    ensures
        !old(store).sessions().contains_key(code@) ==> (r matches Err(ApiError::PairCodeNotFound)
            && *final(store) == *old(store)),
        old(store).sessions().contains_key(code@) && old(store).sessions()[code@].4 < now ==> (r matches Err(
            ApiError::PairCodeExpired,
        ) && final(store).sessions() == old(store).sessions().remove(code@) && final(store).devices()
            == old(store).devices()),
        old(store).sessions().contains_key(code@) && old(store).sessions()[code@].4 >= now ==> ({
            let s = old(store).sessions()[code@];
            &&& r matches Ok((st, secs)) && st == s.5 && secs == ((s.4 - now) / 1000) as u64
            &&& *final(store) == *old(store)
        }),
{
    let (status, expired, secs) = match store.get_session(code) {
        None => return Err(ApiError::PairCodeNotFound),
        Some(s) => (s.status, s.is_expired(now), s.expires_in_seconds(now)),
    };
    if expired {
        store.remove_session(code);
        return Err(ApiError::PairCodeExpired);
    }
    Ok((status, secs))
}

/// Answers the pairing session `code` at `now`: approving pairs the device
/// with `token`, refusing drops the session. Refused when there is no such
/// session or it has expired.
pub fn pair_confirm(store: &mut PairStore, code: &str, approve: bool, token: String, now: i64) -> (r: Result<(), ApiError>)
    ensures
        !old(store).sessions().contains_key(code@) ==> (r matches Err(ApiError::PairCodeNotFound)
            && *final(store) == *old(store)),
        old(store).sessions().contains_key(code@) && old(store).sessions()[code@].4 < now ==> (r matches Err(
            ApiError::PairCodeExpired,
        ) && *final(store) == *old(store)),
        old(store).sessions().contains_key(code@) && old(store).sessions()[code@].4 >= now && !approve ==> (
        r is Ok && final(store).sessions() == old(store).sessions().remove(code@) && final(store).devices()
            == old(store).devices()),
        old(store).sessions().contains_key(code@) && old(store).sessions()[code@].4 >= now && approve ==> ({
            let s = old(store).sessions()[code@];
            if s.5 == PairStatus::Pending {
                &&& r is Ok
                &&& final(store).devices() == old(store).devices().insert(s.1, (s.1, s.2, token@, now, now, false))
                &&& final(store).sessions() == old(store).sessions().remove(code@)
            } else {
                r matches Err(ApiError::PairAlreadyConfirmed) && *final(store) == *old(store)
            }
        }),
{
    let expired = match store.get_session(code) {
        None => return Err(ApiError::PairCodeNotFound),
        Some(s) => s.is_expired(now),
    };
    if expired {
        return Err(ApiError::PairCodeExpired);
    }
    if approve {
        match store.confirm_session(code, token, now) {
            Ok(_) => Ok(()),
            Err(e) => Err(e),
        }
    } else {
        store.reject_session(code)
    }
}

/// The clipboard reply: nothing new (empty content) when the reader already
/// has the content with hash `hash`, else the content.
pub fn clipboard_read(content: String, hash: String, since_hash: Option<&str>) -> (r: (String, String))
    ensures
        r.1@ == hash@,
        (since_hash matches Some(h) && h@ == hash@) ==> r.0@ == Seq::<char>::empty(),
        !(since_hash matches Some(h) && h@ == hash@) ==> r.0@ == content@,
{
    match since_hash {
        Some(h) => {
            if same_text(h, hash.as_str()) {
                let empty = owned("");
                proof {
                    reveal_strlit("");
                }
                return (empty, hash);
            }
        },
        None => {},
    }
    (content, hash)
}

/// A write is refused unless the hash sent matches the content sent.
pub fn check_write_hash(computed: &str, claimed: &str) -> (r: Result<(), ApiError>)
    ensures
        computed@ == claimed@ ==> r is Ok,
        computed@ != claimed@ ==> r matches Err(ApiError::HashMismatch),
{
    if same_text(computed, claimed) {
        Ok(())
    } else {
        Err(ApiError::HashMismatch)
    }
}

/// Whether a checked write is carried out: not when the clipboard already
/// holds content with the same hash.
pub fn write_accepted(current_hash: &str, claimed: &str) -> (b: bool)
    ensures
        b == (current_hash@ != claimed@),
{
    !same_text(current_hash, claimed)
}

/// The token of an "Authorization: Bearer <token>" header; a missing header
/// or another scheme is refused.
pub fn bearer_token(header: Option<&str>) -> (r: Result<String, ApiError>)
    ensures
        match header {
            None => r matches Err(ApiError::InvalidToken),
            Some(h) => if "Bearer "@.is_prefix_of(h@) {
                r matches Ok(t) && t@ == h@.skip(7)
            } else {
                r matches Err(ApiError::InvalidToken)
            },
        },
{
    match header {
        None => Err(ApiError::InvalidToken),
        Some(h) => {
            let v = crate::text::chars_of(h);
            let p = crate::text::chars_of("Bearer ");
            if crate::schema_config::starts_with(v.as_slice(), p.as_slice()) {
                proof {
                    reveal_strlit("Bearer ");
                }
                let rest = vstd::slice::slice_subrange(v.as_slice(), 7, v.len());
                assert(rest@ =~= h@.skip(7));
                Ok(crate::text::string_of(rest))
            } else {
                Err(ApiError::InvalidToken)
            }
        },
    }
}

/// The clipboard as last synchronized: its content and the content's hash.
#[derive(Debug, Clone)]
pub struct ClipboardState {
    pub content: String,
    pub hash: String,
}

impl ClipboardState {
    /// The clipboard holding `content`, whose hash is `hash`.
    pub fn new(content: String, hash: String) -> (s: Self)
        ensures
            s.content@ == content@,
            s.hash@ == hash@,
    {
        ClipboardState { content, hash }
    }
}

} // verus!

verus! {

/// A session that was confirmed or rejected is gone: its code is refused
/// from then on.
pub proof fn lemma_code_used_once(sessions: Map<Seq<char>, SessionView>, code: Seq<char>)
    ensures
        !sessions.remove(code).contains_key(code),
{
}

/// A session just opened is found under its code, as it was opened.
pub proof fn lemma_session_found_after_create(
    sessions: Map<Seq<char>, SessionView>,
    code: Seq<char>,
    s: SessionView,
)
    ensures
        sessions.insert(code, s).contains_key(code),
        sessions.insert(code, s)[code] == s,
{
}

/// Confirming pairs the device under its id with the token handed out,
/// and unpairing removes it again while leaving every other device.
pub proof fn lemma_pair_then_unpair(
    devices: Map<Seq<char>, DeviceView>,
    id: Seq<char>,
    d: DeviceView,
    other: Seq<char>,
)
    requires
        other != id,
    ensures
        devices.insert(id, d).contains_key(id) && devices.insert(id, d)[id] == d,
        !devices.insert(id, d).remove(id).contains_key(id),
        devices.insert(id, d).remove(id).contains_key(other) == devices.contains_key(other),
        devices.contains_key(other) ==> devices.insert(id, d).remove(id)[other] == devices[other],
{
}

} // verus!
