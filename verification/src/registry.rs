//! The name server's registry: which public key each user name stands for, and the
//! challenges handed out to prove that one holds such a key before renaming it.
use vstd::prelude::*;
use vstd::string::StringExecFns;
use vstd::string::StringSliceAdditionalSpecFns;
use vstd::utf8::encode_utf8;
use crate::client::{response_class, ResponseClass};
use crate::crypto::{ed25519_accepts, fresh_nonce, signature_array, verify_signature};
use crate::directory::Directory;
use crate::hex::{decode_hex, encode_hex, hex_bytes, hex_text, lemma_hex_round_trip};
use crate::messages::{AuthRequest, ChangeNameRequest, GetKeyRequest, RegisterRequest};

verus! {

/// The HTTP statuses that the server answers with.
#[derive(Clone, Copy, Debug, PartialEq, Eq)]
pub enum Status {
    Success,
    Created,
    BadRequest,
    Unauthorized,
    Forbidden,
    ExpectationFailed,
    InternalServerError,
}

/// The number of an HTTP status.
pub open spec fn status_code(s: Status) -> u16 {
    match s {
        Status::Success => 200,
        Status::Created => 201,
        Status::BadRequest => 400,
        Status::Unauthorized => 401,
        Status::Forbidden => 403,
        Status::ExpectationFailed => 417,
        Status::InternalServerError => 500,
    }
}

impl Status {
    /// The number of this status.
    pub fn code(&self) -> (c: u16)
        ensures
            c == status_code(*self),
            *self == Status::Success ==> c == 200,
            *self == Status::Created ==> c == 201,
            *self == Status::BadRequest ==> c == 400,
            *self == Status::Unauthorized ==> c == 401,
            *self == Status::Forbidden ==> c == 403,
            *self == Status::ExpectationFailed ==> c == 417,
            *self == Status::InternalServerError ==> c == 500,
    {
        match self {
            Status::Success => 200,
            Status::Created => 201,
            Status::BadRequest => 400,
            Status::Unauthorized => 401,
            Status::Forbidden => 403,
            Status::ExpectationFailed => 417,
            Status::InternalServerError => 500,
        }
    }
}

/// What the server keeps for a user: the public key and the challenge last handed out.
#[derive(Clone, Copy, Debug, PartialEq, Eq)]
pub struct Record {
    pub key: [u8; 32],
    pub challenge: Option<[u8; 32]>,
}

/// The registry, as a map from the text of each user name to its record.
pub type Clients = Map<Seq<char>, Record>;

/// The registry after a registration of `key` under `name`: unchanged when the name is taken.
pub open spec fn registered(db: Clients, name: Seq<char>, key: [u8; 32]) -> Clients {
    if db.dom().contains(name) {
        db
    } else {
        db.insert(name, Record { key, challenge: None })
    }
}

/// The registry after a challenge is handed out for `name`: unchanged when it is not registered.
pub open spec fn challenged(db: Clients, name: Seq<char>, challenge: [u8; 32]) -> Clients {
    if db.dom().contains(name) {
        db.insert(name, Record { key: db[name].key, challenge: Some(challenge) })
    } else {
        db
    }
}

/// Whether the server can judge a change of name from `old`: it cannot when `old` is
/// registered, the signature text is hexadecimal, and yet no challenge was handed out
/// or the signature is not 64 bytes long.
pub open spec fn change_judgeable(db: Clients, old: Seq<char>, signature_text: Seq<u8>) -> bool {
    db.dom().contains(old) && hex_bytes(signature_text) is Some ==> {
        &&& db[old].challenge is Some
        &&& hex_bytes(signature_text)->0.len() == 64
    }
}

/// The status that a change of name from `old` to `new` is answered with.
pub open spec fn change_status(
    db: Clients,
    old: Seq<char>,
    new: Seq<char>,
    signature_text: Seq<u8>,
) -> Status {
    if !db.dom().contains(old) {
        Status::Unauthorized
    } else {
        match hex_bytes(signature_text) {
            None => Status::InternalServerError,
            Some(signature) => {
                if !ed25519_accepts(db[old].key@, db[old].challenge->0@, signature) {
                    Status::Forbidden
                } else if db.dom().contains(new) {
                    Status::BadRequest
                } else {
                    Status::Success
                }
            },
        }
    }
}

/// The registry after a change of name from `old` to `new`: the key moves to the new
/// name with no challenge pending when the change is accepted, and nothing changes otherwise.
pub open spec fn renamed(
    db: Clients,
    old: Seq<char>,
    new: Seq<char>,
    signature_text: Seq<u8>,
) -> Clients {
    if change_status(db, old, new, signature_text) == Status::Success {
        db.remove(old).insert(new, Record { key: db[old].key, challenge: None })
    } else {
        db
    }
}

/// The name server's table of users.
pub struct Registry {
    clients: Directory<Record>,
}

impl Registry {
    /// The table is well formed.
    pub closed spec fn wf(&self) -> bool {
        self.clients.wf()
    }

    /// The records, keyed by the text of each user name.
    pub closed spec fn view(&self) -> Clients {
        self.clients.view()
    }

    /// A well-formed registry holds finitely many users.
    pub proof fn lemma_finite(&self)
        requires
            self.wf(),
        ensures
            self.view().dom().finite(),
    {
        self.clients.lemma_finite();
    }

    /// A registry with no users.
    pub fn new() -> (r: Registry)
        ensures
            r.wf(),
            r.view() == Map::<Seq<char>, Record>::empty(),
            r.view().dom().finite(),
    {
        Registry { clients: Directory::new() }
    }

    /// Handles `/register`: keeps the key under the name unless the name is taken.
    pub fn handle_registration(&mut self, request: RegisterRequest) -> (res: Result<
        Status,
        (Status, &'static str),
    >)
        requires
            old(self).wf(),
        ensures
            final(self).wf(),
            final(self).view() == registered(old(self).view(), request.name@, request.publickey),
            final(self).view().dom().finite(),
            old(self).view().dom().contains(request.name@) ==> (res matches Err((s, m)) && s
                == Status::BadRequest && m@ == "that name is already registered"@),
            !old(self).view().dom().contains(request.name@) ==> res == Ok::<
                Status,
                (Status, &'static str),
            >(Status::Created),
    {
        proof {
            self.clients.lemma_finite();
        }
        if self.clients.contains(&request.name) {
            Err((Status::BadRequest, "that name is already registered"))
        } else {
            let record = Record { key: request.publickey, challenge: None };
            self.clients.insert(request.name, record);
            Ok(Status::Created)
        }
    }

    /// Handles `/getkey`: the public key kept under the target name.
    pub fn handle_key_request(&self, request: &GetKeyRequest) -> (res: Result<
        [u8; 32],
        (Status, String),
    >)
        requires
            self.wf(),
        ensures
            self.view().dom().contains(request.target@) ==> res == Ok::<
                [u8; 32],
                (Status, String),
            >(self.view()[request.target@].key),
            !self.view().dom().contains(request.target@) ==> (res matches Err((s, m)) && s
                == Status::BadRequest && m@ == request.target@ + " is not registered"@),
    {
        match self.clients.get(&request.target) {
            Some(record) => Ok(record.key),
            None => {
                let mut message = request.target.as_str().to_owned();
                message.append(" is not registered");
                Err((Status::BadRequest, message))
            },
        }
    }

    /// Handles `/start_auth` with `challenge` as the challenge: keeps it for the name and
    /// answers it as hexadecimal text.
    pub fn start_auth(&mut self, request: &AuthRequest, challenge: [u8; 32]) -> (res: (
        Status,
        String,
    ))
        requires
            old(self).wf(),
        ensures
            final(self).wf(),
            final(self).view() == challenged(old(self).view(), request.name@, challenge),
            final(self).view().dom().finite(),
            old(self).view().dom().contains(request.name@) ==> res.0 == Status::Success && res.1@
                == hex_text(challenge@),
            !old(self).view().dom().contains(request.name@) ==> res.0 == Status::BadRequest
                && res.1@ == "cannot change a name that is not registered"@,
    {
        proof {
            self.clients.lemma_finite();
        }
        match self.clients.get(&request.name) {
            None => {
                let message = "cannot change a name that is not registered".to_owned();
                (Status::BadRequest, message)
            },
            Some(record) => {
                let updated = Record { key: record.key, challenge: Some(challenge) };
                self.clients.insert(request.name.duplicate(), updated);
                (Status::Success, encode_hex(challenge.as_slice()))
            },
        }
    }

    /// Handles `/start_auth` with a fresh random challenge.
    pub fn start_auth_fresh(&mut self, request: &AuthRequest) -> (res: (Status, String))
        requires
            old(self).wf(),
        ensures
            final(self).wf(),
            final(self).view().dom().finite(),
            exists|challenge: [u8; 32]|
                {
                    &&& final(self).view() == challenged(old(self).view(), request.name@, challenge)
                    &&& old(self).view().dom().contains(request.name@) ==> res.1@ == hex_text(
                        challenge@,
                    )
                },
            old(self).view().dom().contains(request.name@) ==> res.0 == Status::Success,
            !old(self).view().dom().contains(request.name@) ==> res.0 == Status::BadRequest
                && res.1@ == "cannot change a name that is not registered"@,
    {
        proof {
            self.clients.lemma_finite();
        }
        let challenge = fresh_nonce();
        self.start_auth(request, challenge)
    }

    /// Whether `handle_change_name` can judge this request (see `change_judgeable`).
    pub fn can_judge_change(&self, request: &ChangeNameRequest) -> (b: bool)
        requires
            self.wf(),
        ensures
            b == change_judgeable(
                self.view(),
                request.old_name@,
                encode_utf8(request.hex_signature@),
            ),
    {
        match self.clients.get(&request.old_name) {
            None => true,
            Some(record) => match decode_hex(request.hex_signature.as_str()) {
                Err(_) => true,
                Ok(signature) => record.challenge.is_some() && signature.len() == 64,
            },
        }
    }

    /// Handles `/change_name`: checks the signature over the challenge handed out for the
    /// old name with the key kept under it, and moves that key to the new name.
    pub fn handle_change_name(&mut self, request: ChangeNameRequest) -> (status: Status)
        requires
            old(self).wf(),
            change_judgeable(
                old(self).view(),
                request.old_name@,
                encode_utf8(request.hex_signature@),
            ),
        ensures
            final(self).wf(),
            final(self).view().dom().finite(),
            status == change_status(
                old(self).view(),
                request.old_name@,
                request.new_name@,
                encode_utf8(request.hex_signature@),
            ),
            final(self).view() == renamed(
                old(self).view(),
                request.old_name@,
                request.new_name@,
                encode_utf8(request.hex_signature@),
            ),
    {
        proof {
            self.clients.lemma_finite();
        }
        let record = match self.clients.get(&request.old_name) {
            None => {
                return Status::Unauthorized;
            },
            Some(record) => *record,
        };
        let signature = match decode_hex(request.hex_signature.as_str()) {
            Err(_) => {
                return Status::InternalServerError;
            },
            Ok(bytes) => bytes,
        };
        let challenge = record.challenge.unwrap();
        let signature = signature_array(&signature);
        if !verify_signature(&record.key, challenge.as_slice(), &signature) {
            return Status::Forbidden;
        }
        if self.clients.contains(&request.new_name) {
            return Status::BadRequest;
        }
        match self.clients.remove(&request.old_name) {
            None => Status::ExpectationFailed,
            Some(entry) => {
                self.clients.insert(request.new_name, Record { key: entry.key, challenge: None });
                Status::Success
            },
        }
    }
}

/// A read gives back what a write wrote: after a registration under a free name, the
/// name stands for the registered key, with no challenge pending; a taken name keeps its record.
pub proof fn lemma_lookup_after_registration(db: Clients, name: Seq<char>, key: [u8; 32])
    ensures
        !db.dom().contains(name) ==> registered(db, name, key).dom().contains(name)
            && registered(db, name, key)[name] == (Record { key, challenge: None }),
        db.dom().contains(name) ==> registered(db, name, key) == db,
        forall|other: Seq<char>|
            other != name ==> (#[trigger] registered(db, name, key).dom().contains(other)
                <==> db.dom().contains(other)),
{
}

/// Handing out a challenge never changes which key a name stands for, nor which names
/// are registered.
pub proof fn lemma_challenge_keeps_keys(db: Clients, name: Seq<char>, challenge: [u8; 32])
    ensures
        challenged(db, name, challenge).dom() == db.dom(),
        forall|k: Seq<char>|
            #[trigger] db.dom().contains(k) ==> challenged(db, name, challenge)[k].key == db[k].key,
{
    assert(challenged(db, name, challenge).dom() =~= db.dom());
}

/// Only the holder of a name's key moves it: whenever a change of name alters the
/// registry, the signature sent verified under the key kept for the old name, over the
/// challenge handed out for it, and the new name was free.
pub proof fn lemma_rename_needs_signature(
    db: Clients,
    old: Seq<char>,
    new: Seq<char>,
    signature_text: Seq<u8>,
)
    requires
        renamed(db, old, new, signature_text) != db,
    ensures
        change_status(db, old, new, signature_text) == Status::Success,
        db.dom().contains(old),
        !db.dom().contains(new),
        hex_bytes(signature_text) is Some,
        ed25519_accepts(db[old].key@, db[old].challenge->0@, hex_bytes(signature_text)->0),
{
}

/// The challenge–response for a change of name goes through: when the server hands out
/// `challenge` for a registered `old` name, the client decodes the hexadecimal text it
/// gets, signs what it decoded with a key whose signature verifies under the registered
/// key, and sends that signature as hexadecimal text, the server accepts the change to a
/// free `new` name and moves the key there with no challenge pending.
pub proof fn lemma_challenge_response(
    db: Clients,
    old: Seq<char>,
    new: Seq<char>,
    challenge: [u8; 32],
    signature: [u8; 64],
)
    requires
        db.dom().contains(old),
        !db.dom().contains(new),
        ed25519_accepts(db[old].key@, challenge@, signature@),
    ensures
        ({
            let served = challenged(db, old, challenge);
            let received = hex_bytes(encode_utf8(hex_text(challenge@)));
            let sent = encode_utf8(hex_text(signature@));
            &&& received == Some(challenge@)
            &&& change_judgeable(served, old, sent)
            &&& change_status(served, old, new, sent) == Status::Success
            &&& renamed(served, old, new, sent) == db.remove(old).insert(
                new,
                Record { key: db[old].key, challenge: None },
            )
        }),
{
    lemma_hex_round_trip(challenge@);
    lemma_hex_round_trip(signature@);
    let served = challenged(db, old, challenge);
    assert(served[old].challenge->0@ == challenge@);
    assert(served.remove(old) =~= db.remove(old));
}

/// A change of name cannot be replayed: once accepted, the same request is refused as
/// unauthorized, since the old name is no longer registered.
pub proof fn lemma_no_replay(db: Clients, old: Seq<char>, new: Seq<char>, signature_text: Seq<u8>)
    requires
        change_status(db, old, new, signature_text) == Status::Success,
    ensures
        change_status(renamed(db, old, new, signature_text), old, new, signature_text)
            == Status::Unauthorized,
{
}

/// An accepted change of name keeps the number of registered names: one name leaves,
/// one that was free comes in.
pub proof fn lemma_rename_keeps_count(db: Clients, old: Seq<char>, new: Seq<char>, signature_text: Seq<u8>)
    requires
        db.dom().finite(),
        change_status(db, old, new, signature_text) == Status::Success,
    ensures
        renamed(db, old, new, signature_text).dom().finite(),
        renamed(db, old, new, signature_text).dom().len() == db.dom().len(),
{
    let after = renamed(db, old, new, signature_text);
    assert(after.dom() =~= db.dom().remove(old).insert(new));
}

/// A request to the server, as it acts on the registry.
pub enum ServerOp {
    /// `/register` of a key under a name.
    Register(Seq<char>, [u8; 32]),
    /// `/start_auth` for a name, with the challenge handed out.
    Challenge(Seq<char>, [u8; 32]),
    /// `/change_name` from one name to another, with the signature text sent.
    Rename(Seq<char>, Seq<char>, Seq<u8>),
}

/// The registry after the server handled `op`.
pub open spec fn apply_op(db: Clients, op: ServerOp) -> Clients {
    match op {
        ServerOp::Register(name, key) => registered(db, name, key),
        ServerOp::Challenge(name, challenge) => challenged(db, name, challenge),
        ServerOp::Rename(old, new, text) => renamed(db, old, new, text),
    }
}

/// The registry after the server handled `ops`, in order.
pub open spec fn run_server(db: Clients, ops: Seq<ServerOp>) -> Clients
    decreases ops.len(),
{
    if ops.len() == 0 {
        db
    } else {
        apply_op(run_server(db, ops.drop_last()), ops.last())
    }
}

/// Whether `op`, handled with the registry `db`, is an accepted change of name away from `name`.
pub open spec fn renames_away(db: Clients, op: ServerOp, name: Seq<char>) -> bool {
    match op {
        ServerOp::Rename(old, new, text) => old == name && change_status(db, old, new, text)
            == Status::Success,
        _ => false,
    }
}

/// Whether no request in `ops`, each handled in turn from `db`, was an accepted change
/// of name away from `name`.
pub open spec fn never_renamed_away(db: Clients, ops: Seq<ServerOp>, name: Seq<char>) -> bool
    decreases ops.len(),
{
    ops.len() == 0 || (never_renamed_away(db, ops.drop_last(), name) && !renames_away(
        run_server(db, ops.drop_last()),
        ops.last(),
        name,
    ))
}

/// A registration is never overwritten: whatever requests follow (registrations,
/// challenges, changes of other names, refused changes of this one), a registered name
/// keeps standing for its key until a change of name away from it is accepted.
pub proof fn lemma_registration_kept(db: Clients, ops: Seq<ServerOp>, name: Seq<char>)
    requires
        db.dom().contains(name),
        never_renamed_away(db, ops, name),
    ensures
        run_server(db, ops).dom().contains(name),
        run_server(db, ops)[name].key == db[name].key,
    decreases ops.len(),
{
    if ops.len() > 0 {
        lemma_registration_kept(db, ops.drop_last(), name);
        let before = run_server(db, ops.drop_last());
        match ops.last() {
            ServerOp::Register(m, k) => {},
            ServerOp::Challenge(m, c) => {},
            ServerOp::Rename(old, new, text) => {},
        }
    }
}

/// What a registration under a free name stores is what later key requests answer, for
/// as long as no change of name away from it is accepted.
pub proof fn lemma_registered_key_answered(
    db: Clients,
    name: Seq<char>,
    key: [u8; 32],
    ops: Seq<ServerOp>,
)
    requires
        !db.dom().contains(name),
        never_renamed_away(registered(db, name, key), ops, name),
    ensures
        run_server(registered(db, name, key), ops).dom().contains(name),
        run_server(registered(db, name, key), ops)[name].key == key,
{
    lemma_registration_kept(registered(db, name, key), ops, name);
}


/// Each status carries its HTTP number and the client reads it as meant: 200 and 201 are
/// the successes and are classed as success, every refusal or error is a 4xx or 5xx and is
/// classed as failure, and no two statuses share a number.
pub proof fn lemma_status_numbers(s: Status, t: Status)
    ensures
        s == Status::Success ==> status_code(s) == 200,
        s == Status::Created ==> status_code(s) == 201,
        s == Status::BadRequest ==> status_code(s) == 400,
        s == Status::Unauthorized ==> status_code(s) == 401,
        s == Status::Forbidden ==> status_code(s) == 403,
        s == Status::ExpectationFailed ==> status_code(s) == 417,
        s == Status::InternalServerError ==> status_code(s) == 500,
        (s == Status::Success || s == Status::Created) <==> response_class(status_code(s))
            == ResponseClass::Success,
        !(s == Status::Success || s == Status::Created) <==> response_class(status_code(s))
            == ResponseClass::Failure,
        s != t ==> status_code(s) != status_code(t),
{
}

/// The client reads the server's answer to a registration as the server meant it: a
/// registration under a free name is answered with a success code, one under a taken
/// name with a failure code.
pub proof fn lemma_registration_answer_classes(db: Clients, name: Seq<char>)
    ensures
        !db.dom().contains(name) ==> response_class(status_code(Status::Created))
            == ResponseClass::Success,
        db.dom().contains(name) ==> response_class(status_code(Status::BadRequest))
            == ResponseClass::Failure,
{
}

} // verus!
