use vstd::prelude::*;
use crate::cache::ResultCache;
use crate::error::AkcClientError;
use crate::model::{Device, FieldData, Snapshot, User, value_text};
use crate::nlp::{Intent, NlpResponse, copy_texts};
use crate::resolver::{FieldValueAndPath, find_shallowest_match, is_match, no_match, none_shallower};
use crate::text::{lower_of, occurs_in, name_matches};
use crate::token::Token;

verus! {

/// How a reply is to be presented.
#[derive(PartialEq, Eq, Structural, Clone, Copy, Debug)]
pub enum Status {
    Info,
    Confirmation,
    Error,
    ActionRequired,
}

/// The outcome of a request, for the chat side to render.
#[derive(Debug)]
pub struct MessageToUser {
    pub intent: Intent,
    pub data: Vec<String>,
    pub status: Status,
}

/// How long a user lookup is reused: two weeks.
pub const USER_TTL: u64 = 60 * 60 * 24 * 14;

/// How long a device list is reused: half an hour.
pub const DEVICE_TTL: u64 = 60 * 30;

/// The lookups kept per credential between requests.
#[derive(Debug)]
pub struct Caches {
    pub users: ResultCache<User>,
    pub devices: ResultCache<Vec<Device>>,
}

impl Caches {
    pub open spec fn wf(&self) -> bool {
        self.users.wf() && self.devices.wf()
    }

    /// Empty caches with the usual lifetimes.
    pub fn new() -> (r: Caches)
        ensures
            r.wf(),
            r.users.ttl == USER_TTL,
            r.devices.ttl == DEVICE_TTL,
            forall|k: Seq<char>| #[trigger] r.users.entry(k) is None,
            forall|k: Seq<char>| #[trigger] r.devices.entry(k) is None,
    {
        Caches { users: ResultCache::new(USER_TTL), devices: ResultCache::new(DEVICE_TTL) }
    }
}

/// A remote lookup that the request is waiting for.
#[derive(Debug)]
pub enum Fetch {
    /// The user the credential belongs to.
    User,
    /// Every device of the user `owner_id`.
    Devices { owner_id: String },
    /// The latest readings of the device `device_id`.
    Snapshots { device_id: String },
}

/// The answer to a `Fetch`.
#[derive(Debug)]
pub enum Reply {
    User(Result<User, AkcClientError>),
    Devices(Result<Vec<Device>, AkcClientError>),
    Snapshots(Result<Vec<Snapshot>, AkcClientError>),
}

/// Where a request stands.
#[derive(Debug)]
pub enum Stage {
    ResolveUser,
    ResolveDevice { owner_id: String },
    ResolveField { device: Device },
}

/// A request being resolved against the remote.
#[derive(Debug)]
pub struct Resolution {
    pub token: Token,
    pub intent: Intent,
    pub device_hints: Vec<String>,
    pub field_hint: String,
    pub stage: Stage,
}

/// What happens next with a request.
#[derive(Debug)]
pub enum Progress {
    /// Perform the fetch and hand its answer to `Resolution::resume`.
    Await(Resolution, Fetch),
    /// The request is answered.
    Done(MessageToUser),
}

/// `m` says the credential must be dropped: the request met a remote failure.
pub open spec fn is_auth_failure(m: MessageToUser, token: Token) -> bool {
    &&& m.intent == Intent::ForcedLogout
    &&& m.data@.len() == 1
    &&& m.data@[0]@ == token.access_token@
    &&& m.status == Status::Error
}

/// `m` has the given intent, status, and texts.
pub open spec fn says(m: MessageToUser, intent: Intent, status: Status, texts: Seq<Seq<char>>) -> bool {
    &&& m.intent == intent
    &&& m.status == status
    &&& m.data@.len() == texts.len()
    &&& forall|i: int| 0 <= i < texts.len() ==> (#[trigger] m.data@[i])@ == texts[i]
}

/// The devices of `ds` whose name contains `hint`, ignoring case, in order.
pub open spec fn keep_matching(ds: Seq<Device>, hint: Seq<char>) -> Seq<Device>
    decreases ds.len(),
{
    if ds.len() == 0 {
        Seq::empty()
    } else {
        let rest = keep_matching(ds.drop_last(), hint);
        if occurs_in(lower_of(hint), lower_of(ds.last().name@)) {
            rest.push(ds.last())
        } else {
            rest
        }
    }
}

/// The devices left after narrowing `ds` by each hint in turn.
pub open spec fn narrowed(ds: Seq<Device>, hints: Seq<String>) -> Seq<Device>
    decreases hints.len(),
{
    if hints.len() == 0 {
        ds
    } else {
        keep_matching(narrowed(ds, hints.drop_last()), hints.last()@)
    }
}

/// The texts of `ws`, separated by single spaces.
pub open spec fn joined(ws: Seq<String>) -> Seq<char>
    decreases ws.len(),
{
    if ws.len() == 0 {
        Seq::empty()
    } else if ws.len() == 1 {
        ws[0]@
    } else {
        joined(ws.drop_last()) + " "@ + ws.last()@
    }
}

/// `b` is the request `a` at another stage.
pub open spec fn same_request(a: Resolution, b: Resolution) -> bool {
    &&& a.token == b.token
    &&& a.intent == b.intent
    &&& a.device_hints@ == b.device_hints@
    &&& a.field_hint == b.field_hint
}

/// The fetch that a request at `stage` waits for.
pub open spec fn fetch_for(stage: Stage, f: Fetch) -> bool {
    match stage {
        Stage::ResolveUser => f is User,
        Stage::ResolveDevice { owner_id } => f is Devices && f->owner_id@ == owner_id@,
        Stage::ResolveField { device } => f is Snapshots && f->device_id@ == device.id@,
    }
}

/// `p` waits at `stage` on the request `res`.
pub open spec fn waits(p: Progress, res: Resolution, stage: Stage) -> bool {
    &&& p is Await
    &&& same_request(p->Await_0, res)
    &&& p->Await_0.stage == stage
    &&& fetch_for(stage, p->Await_1)
}

/// The reply to a field request for `device`, from the snapshots fetched for it.
pub open spec fn field_reply(token: Token, device: Device, hint: Seq<char>, snapshots: Seq<Snapshot>, m: MessageToUser) -> bool {
    if snapshots.len() == 0 {
        is_auth_failure(m, token)
    } else {
        match snapshots[0].data {
            FieldData::Group(root) => if no_match(root@, hint) {
                says(m, Intent::GetField, Status::Error, seq![device.name@, hint])
            } else {
                exists|fm: FieldValueAndPath|
                    #[trigger] is_match(root@, hint, fm) && none_shallower(root@, hint, fm.path@.len() as int)
                        && says(m, Intent::GetField, Status::Info, seq![device.name@, hint, value_text(fm.value)])
            },
            FieldData::Field { .. } => says(m, Intent::GetField, Status::Error, seq![device.name@, hint]),
        }
    }
}

/// What follows once the devices `ds` of the user are known.
pub open spec fn devices_step(res: Resolution, ds: Seq<Device>, p: Progress) -> bool {
    let found = narrowed(ds, res.device_hints@);
    if found.len() == 0 {
        p is Done && says(p->Done_0, Intent::GetField, Status::Error, seq![joined(res.device_hints@)])
    } else {
        waits(p, res, Stage::ResolveField { device: found[0] })
    }
}

/// What follows once the user is known, given the devices cached for the
/// credential.
pub open spec fn user_step(res: Resolution, user: User, cached: Option<Vec<Device>>, p: Progress) -> bool {
    if res.intent == Intent::GetSelf {
        p is Done && says(p->Done_0, Intent::GetSelf, Status::Info, seq![user.full_name@])
    } else {
        match cached {
            Some(ds) => devices_step(res, ds@, p),
            None => exists|owner_id: String|
                owner_id@ == user.id@ && #[trigger] waits(p, res, Stage::ResolveDevice { owner_id }),
        }
    }
}

fn text_list(t: String) -> (r: Vec<String>)
    ensures
        r@ == seq![t],
{
    let mut v: Vec<String> = Vec::new();
    v.push(t);
    v
}

fn message(intent: Intent, status: Status, data: Vec<String>) -> (r: MessageToUser)
    ensures
        r.intent == intent,
        r.status == status,
        r.data == data,
{
    MessageToUser { intent, data, status }
}

/// The reply that drops the credential after a remote failure.
pub fn auth_failure(token: &Token) -> (r: MessageToUser)
    ensures
        is_auth_failure(r, *token),
{
    message(Intent::ForcedLogout, Status::Error, text_list(token.access_token.clone()))
}

/// The devices of `ds` whose name contains `hint`, ignoring case.
pub fn filter_devices(ds: &Vec<Device>, hint: &str) -> (r: Vec<Device>)
    ensures
        r@ == keep_matching(ds@, hint@),
{
    let mut out: Vec<Device> = Vec::new();
    let mut i: usize = 0;
    while i < ds.len()
        invariant
            i <= ds@.len(),
            out@ == keep_matching(ds@.take(i as int), hint@),
        decreases ds.len() - i,
    {
        assert(ds@.take(i + 1).drop_last() =~= ds@.take(i as int));
        if name_matches(ds[i].name.as_str(), hint) {
            out.push(ds[i].clone());
        }
        i = i + 1;
    }
    assert(ds@.take(i as int) =~= ds@);
    out
}

/// Narrows `ds` by each hint in turn: each hint keeps the devices of the
/// previous result whose name contains it, ignoring case.
pub fn narrow_devices(ds: &Vec<Device>, hints: &Vec<String>) -> (r: Vec<Device>)
    ensures
        r@ == narrowed(ds@, hints@),
{
    let mut current: Vec<Device> = Vec::new();
    let mut i: usize = 0;
    while i < ds.len()
        invariant
            i <= ds@.len(),
            current@ == ds@.take(i as int),
        decreases ds.len() - i,
    {
        current.push(ds[i].clone());
        i = i + 1;
        assert(current@ =~= ds@.take(i as int));
    }
    assert(ds@.take(i as int) =~= ds@);
    let mut k: usize = 0;
    while k < hints.len()
        invariant
            k <= hints@.len(),
            current@ == narrowed(ds@, hints@.take(k as int)),
        decreases hints.len() - k,
    {
        assert(hints@.take(k + 1).drop_last() =~= hints@.take(k as int));
        current = filter_devices(&current, hints[k].as_str());
        k = k + 1;
    }
    assert(hints@.take(k as int) =~= hints@);
    current
}

/// The texts of `ws`, separated by single spaces.
pub fn join_words(ws: &Vec<String>) -> (r: String)
    ensures
        r@ == joined(ws@),
{
    let mut out = String::new();
    let mut i: usize = 0;
    while i < ws.len()
        invariant
            i <= ws@.len(),
            out@ == joined(ws@.take(i as int)),
        decreases ws.len() - i,
    {
        assert(ws@.take(i + 1).drop_last() =~= ws@.take(i as int));
        if i > 0 {
            out.append(" ");
        }
        out.append(ws[i].as_str());
        i = i + 1;
        proof {
            if i == 1 {
                assert(out@ =~= joined(ws@.take(1)));
            }
        }
    }
    assert(ws@.take(i as int) =~= ws@);
    out
}

/// The reply to a field request for `device` from the snapshots fetched for
/// it: the shallowest leaf named like the hint in the first snapshot, or a
/// not-found reply; no snapshot at all counts as a remote failure.
pub fn field_outcome(token: &Token, device: &Device, field_hint: &String, snapshots: &Vec<Snapshot>) -> (r: MessageToUser)
    ensures
        field_reply(*token, *device, field_hint@, snapshots@, r),
{
    if snapshots.len() == 0 {
        return auth_failure(token);
    }
    let not_found = {
        let mut data: Vec<String> = Vec::new();
        data.push(device.name.clone());
        data.push(field_hint.clone());
        data
    };
    match &snapshots[0].data {
        FieldData::Group(root) => match find_shallowest_match(root, field_hint.as_str()) {
            Some(fm) => {
                let mut data: Vec<String> = Vec::new();
                data.push(device.name.clone());
                data.push(fm.name.clone());
                data.push(fm.value.text());
                let r = message(Intent::GetField, Status::Info, data);
                assert(is_match(root@, field_hint@, fm));
                assert(says(r, Intent::GetField, Status::Info, seq![device.name@, field_hint@, value_text(fm.value)]));
                r
            },
            None => {
                let r = message(Intent::GetField, Status::Error, not_found);
                assert(says(r, Intent::GetField, Status::Error, seq![device.name@, field_hint@]));
                r
            },
        },
        FieldData::Field { .. } => {
            let r = message(Intent::GetField, Status::Error, not_found);
            assert(says(r, Intent::GetField, Status::Error, seq![device.name@, field_hint@]));
            r
        },
    }
}

impl Resolution {
    fn at(&self, stage: Stage) -> (r: Resolution)
        ensures
            same_request(r, *self),
            r.stage == stage,
    {
        Resolution {
            token: self.token.clone(),
            intent: self.intent,
            device_hints: copy_texts(&self.device_hints),
            field_hint: self.field_hint.clone(),
            stage,
        }
    }

    /// The fetch this request waits for at its stage.
    fn pending(&self) -> (r: Fetch)
        ensures
            fetch_for(self.stage, r),
    {
        match &self.stage {
            Stage::ResolveUser => Fetch::User,
            Stage::ResolveDevice { owner_id } => Fetch::Devices { owner_id: owner_id.clone() },
            Stage::ResolveField { device } => Fetch::Snapshots { device_id: device.id.clone() },
        }
    }

    fn wait_at(self, stage: Stage) -> (r: Progress)
        ensures
            waits(r, self, stage),
    {
        let next = self.at(stage);
        let f = next.pending();
        Progress::Await(next, f)
    }

    /// Goes on once the user's devices `ds` are known.
    fn after_devices(self, ds: &Vec<Device>) -> (r: Progress)
        ensures
            devices_step(self, ds@, r),
    {
        let found = narrow_devices(ds, &self.device_hints);
        if found.len() == 0 {
            let r = Progress::Done(
                message(Intent::GetField, Status::Error, text_list(join_words(&self.device_hints))),
            );
            assert(says(r->Done_0, Intent::GetField, Status::Error, seq![joined(self.device_hints@)]));
            r
        } else {
            let device = found[0].clone();
            self.wait_at(Stage::ResolveField { device })
        }
    }

    /// Goes on once the user is known.
    fn after_user(self, user: &User, caches: &Caches, now: u64) -> (r: Progress)
        ensures
            user_step(self, *user, caches.devices.live(self.token.access_token@, now), r),
    {
        if self.intent == Intent::GetSelf {
            let r = Progress::Done(message(Intent::GetSelf, Status::Info, text_list(user.full_name.clone())));
            assert(says(r->Done_0, Intent::GetSelf, Status::Info, seq![user.full_name@]));
            return r;
        }
        match caches.devices.lookup(self.token.access_token(), now) {
            Some(ds) => self.after_devices(ds),
            None => {
                let owner_id = user.id.clone();
                let ghost stage = Stage::ResolveDevice { owner_id };
                let r = self.wait_at(Stage::ResolveDevice { owner_id });
                assert(waits(r, self, stage));
                r
            },
        }
    }
}

/// `res` is the request made of `nlp` for the credential `token`: the
/// device hints default to `no device specified`, the field hint to
/// `no field`.
pub open spec fn request_from(token: Token, nlp: NlpResponse, res: Resolution) -> bool {
    &&& res.token == token
    &&& res.intent == nlp.intent
    &&& match nlp.device {
        Some(d) => res.device_hints@ == d@,
        None => res.device_hints@.len() == 1 && res.device_hints@[0]@ == "no device specified"@,
    }
    &&& match nlp.field {
        Some(f) => res.field_hint == f,
        None => res.field_hint@ == "no field"@,
    }
}

/// How a request starts: a logout is confirmed at once with the credential
/// echoed back; a profile or field request resolves the user, from the cache
/// when it holds one that is live at `now`; anything else is answered at
/// once with the free text that came with it.
pub open spec fn begins(token: Token, nlp: NlpResponse, caches: Caches, now: u64, p: Progress) -> bool {
    if nlp.intent == Intent::Logout {
        p is Done && says(p->Done_0, Intent::Logout, Status::Confirmation, seq![token.access_token@])
    } else if nlp.intent == Intent::GetSelf || nlp.intent == Intent::GetField {
        exists|res: Resolution|
            #[trigger] request_from(token, nlp, res) && match caches.users.live(token.access_token@, now) {
                Some(u) => user_step(res, u, caches.devices.live(token.access_token@, now), p),
                None => waits(p, res, Stage::ResolveUser),
            }
    } else {
        &&& p is Done
        &&& p->Done_0.intent == nlp.intent
        &&& p->Done_0.status == Status::Error
        &&& match nlp.meta {
            Some(m) => p->Done_0.data@ == m@,
            None => p->Done_0.data@.len() == 0,
        }
    }
}

/// Starts answering `nlp_response` for the credential `akc_token`.
pub fn generate_response(akc_token: Token, nlp_response: NlpResponse, caches: &Caches, now: u64) -> (r: Progress)
    ensures
        begins(akc_token, nlp_response, *caches, now, r),
{
    let intent = nlp_response.intent;
    if intent == Intent::Logout {
        let r = Progress::Done(message(Intent::Logout, Status::Confirmation, text_list(akc_token.access_token.clone())));
        assert(says(r->Done_0, Intent::Logout, Status::Confirmation, seq![akc_token.access_token@]));
        return r;
    }
    if intent != Intent::GetSelf && intent != Intent::GetField {
        let data = match nlp_response.meta {
            Some(m) => m,
            None => Vec::new(),
        };
        return Progress::Done(message(intent, Status::Error, data));
    }
    let device_hints = match &nlp_response.device {
        Some(d) => copy_texts(d),
        None => text_list(String::from_str("no device specified")),
    };
    let field_hint = match &nlp_response.field {
        Some(f) => f.clone(),
        None => String::from_str("no field"),
    };
    let res = Resolution { token: akc_token, intent, device_hints, field_hint, stage: Stage::ResolveUser };
    assert(request_from(akc_token, nlp_response, res));
    match caches.users.lookup(res.token.access_token(), now) {
        Some(u) => {
            let user = u.clone();
            res.after_user(&user, caches, now)
        },
        None => {
            let f = res.pending();
            Progress::Await(res, f)
        },
    }
}

/// The devices of `ds`, copied.
fn copy_devices(ds: &Vec<Device>) -> (r: Vec<Device>)
    ensures
        r@ == ds@,
{
    let mut out: Vec<Device> = Vec::new();
    let mut i: usize = 0;
    while i < ds.len()
        invariant
            i <= ds@.len(),
            out@ == ds@.take(i as int),
        decreases ds.len() - i,
    {
        out.push(ds[i].clone());
        i = i + 1;
        assert(out@ =~= ds@.take(i as int));
    }
    assert(ds@.take(i as int) =~= ds@);
    out
}

/// How a request goes on once `reply` arrives: a successful lookup is
/// cached (users and device lists, under the credential, at `now`) and the
/// request moves to its next stage; a failed one ends the request with a
/// remote failure; a reply that does not answer the pending fetch leaves the
/// request waiting where it was.
pub open spec fn resumes(res: Resolution, reply: Reply, before: Caches, after: Caches, now: u64, p: Progress) -> bool {
    let key = res.token.access_token@;
    match (res.stage, reply) {
        (Stage::ResolveUser, Reply::User(Ok(u))) => {
            &&& after.users.stored_from(before.users, key, u, now)
            &&& after.devices == before.devices
            &&& user_step(res, u, before.devices.live(key, now), p)
        },
        (Stage::ResolveDevice { .. }, Reply::Devices(Ok(ds))) => {
            &&& after.devices.stored_from(before.devices, key, ds, now)
            &&& after.users == before.users
            &&& devices_step(res, ds@, p)
        },
        (Stage::ResolveField { device }, Reply::Snapshots(Ok(ss))) => {
            &&& after == before
            &&& p is Done
            &&& field_reply(res.token, device, res.field_hint@, ss@, p->Done_0)
        },
        (Stage::ResolveUser, Reply::User(Err(_)))
        | (Stage::ResolveDevice { .. }, Reply::Devices(Err(_)))
        | (Stage::ResolveField { .. }, Reply::Snapshots(Err(_))) => {
            &&& after == before
            &&& p is Done
            &&& is_auth_failure(p->Done_0, res.token)
        },
        _ => after == before && waits(p, res, res.stage),
    }
}

impl Resolution {
    /// Goes on with the answer to the pending fetch.
    pub fn resume(self, reply: Reply, caches: &mut Caches, now: u64) -> (r: Progress)
        requires
            old(caches).wf(),
        ensures
            final(caches).wf(),
            resumes(self, reply, *old(caches), *final(caches), now, r),
    {
        match (&self.stage, reply) {
            (Stage::ResolveUser, Reply::User(Ok(u))) => {
                let key = self.token.access_token.clone();
                caches.users.store(key, u.clone(), now);
                self.after_user(&u, caches, now)
            },
            (Stage::ResolveDevice { .. }, Reply::Devices(Ok(ds))) => {
                let key = self.token.access_token.clone();
                let copy = copy_devices(&ds);
                caches.devices.store(key, ds, now);
                self.after_devices(&copy)
            },
            (Stage::ResolveField { device }, Reply::Snapshots(Ok(ss))) => {
                Progress::Done(field_outcome(&self.token, device, &self.field_hint, &ss))
            },
            (Stage::ResolveUser, Reply::User(Err(_)))
            | (Stage::ResolveDevice { .. }, Reply::Devices(Err(_)))
            | (Stage::ResolveField { .. }, Reply::Snapshots(Err(_))) => {
                Progress::Done(auth_failure(&self.token))
            },
            _ => {
                let f = self.pending();
                Progress::Await(self, f)
            },
        }
    }
}

impl MessageToUser {
    /// Starts answering `nlp_response` for the credential `akc_token`; see
    /// `generate_response`.
    pub fn from(akc_token: Token, nlp_response: NlpResponse, caches: &Caches, now: u64) -> (r: Progress)
        ensures
            begins(akc_token, nlp_response, *caches, now, r),
    {
        generate_response(akc_token, nlp_response, caches, now)
    }
}

/// Whatever stage a request has reached, a failed answer to the fetch it
/// waits for ends it with a reply that drops the credential, and leaves the
/// caches alone.
pub proof fn remote_failure_forces_logout(
    res: Resolution,
    reply: Reply,
    before: Caches,
    after: Caches,
    now: u64,
    p: Progress,
)
    requires
        resumes(res, reply, before, after, now, p),
        match (res.stage, reply) {
            (Stage::ResolveUser, Reply::User(Err(_))) => true,
            (Stage::ResolveDevice { .. }, Reply::Devices(Err(_))) => true,
            (Stage::ResolveField { .. }, Reply::Snapshots(Err(_))) => true,
            _ => false,
        },
    ensures
        p is Done,
        is_auth_failure(p->Done_0, res.token),
        after == before,
{
}

} // verus!
