use vstd::prelude::*;
use crate::login::{
    LocalLogin, LocalLoginView, Login, LoginView, MirrorLogin, MirrorLoginView, ServerTimestamp,
};

verus! {

/// A record as the server sends or receives it: a login, or the tombstone
/// that marks a deleted one.
#[derive(Debug, Clone)]
pub enum Payload {
    Tombstone(String),
    Record(Login),
}

pub enum PayloadView {
    Tombstone(Seq<char>),
    Record(LoginView),
}

impl View for Payload {
    type V = PayloadView;

    open spec fn view(&self) -> PayloadView {
        match self {
            Payload::Tombstone(id) => PayloadView::Tombstone(id@),
            Payload::Record(l) => PayloadView::Record(l@),
        }
    }
}

/// The identifier of the record that a payload is about.
pub open spec fn payload_id(p: PayloadView) -> Seq<char> {
    match p {
        PayloadView::Tombstone(id) => id,
        PayloadView::Record(l) => l.id,
    }
}

/// The login that a payload carries; `None` for a tombstone.
pub open spec fn payload_login(p: PayloadView) -> Option<LoginView> {
    match p {
        PayloadView::Tombstone(_) => None,
        PayloadView::Record(l) => Some(l),
    }
}

impl Payload {
    pub fn id(&self) -> (r: &String)
        ensures
            r@ == payload_id(self@),
    {
        match self {
            Payload::Tombstone(id) => id,
            Payload::Record(l) => &l.id,
        }
    }

    pub fn copy(&self) -> (r: Payload)
        ensures
            r@ == self@,
    {
        match self {
            Payload::Tombstone(id) => Payload::Tombstone(id.clone()),
            Payload::Record(l) => Payload::Record(l.copy()),
        }
    }
}

pub open spec fn payloads_view(v: Seq<Payload>) -> Seq<PayloadView> {
    v.map_values(|p: Payload| p@)
}

pub open spec fn changes_view(v: Seq<(Payload, ServerTimestamp)>) -> Seq<(PayloadView, ServerTimestamp)> {
    v.map_values(|c: (Payload, ServerTimestamp)| (c.0@, c.1))
}

/// The identifiers of the records in a batch, in order.
pub open spec fn change_ids(changes: Seq<(PayloadView, ServerTimestamp)>) -> Seq<Seq<char>> {
    changes.map_values(|c: (PayloadView, ServerTimestamp)| payload_id(c.0))
}

/// Records that the server sent, each with its server modification time.
#[derive(Debug, Clone)]
pub struct IncomingChangeset {
    pub collection: String,
    pub timestamp: ServerTimestamp,
    pub changes: Vec<(Payload, ServerTimestamp)>,
}

/// Records to upload to the server.
#[derive(Debug, Clone)]
pub struct OutgoingChangeset {
    pub collection: String,
    pub timestamp: ServerTimestamp,
    pub changes: Vec<Payload>,
}

/// An incoming record together with the stored rows that share its
/// identifier.
#[derive(Debug)]
pub struct SyncLoginData {
    pub guid: String,
    pub inbound: (Option<Login>, ServerTimestamp),
    pub mirror: Option<MirrorLogin>,
    pub local: Option<LocalLogin>,
}

pub struct SyncLoginDataView {
    pub guid: Seq<char>,
    pub inbound: Option<LoginView>,
    pub inbound_ts: ServerTimestamp,
    pub mirror: Option<MirrorLoginView>,
    pub local: Option<LocalLoginView>,
}

pub open spec fn opt_login_view(o: Option<Login>) -> Option<LoginView> {
    match o {
        Some(l) => Some(l@),
        None => None,
    }
}

pub open spec fn opt_mirror_view(o: Option<MirrorLogin>) -> Option<MirrorLoginView> {
    match o {
        Some(l) => Some(l@),
        None => None,
    }
}

pub open spec fn opt_local_view(o: Option<LocalLogin>) -> Option<LocalLoginView> {
    match o {
        Some(l) => Some(l@),
        None => None,
    }
}

impl View for SyncLoginData {
    type V = SyncLoginDataView;

    open spec fn view(&self) -> SyncLoginDataView {
        SyncLoginDataView {
            guid: self.guid@,
            inbound: opt_login_view(self.inbound.0),
            inbound_ts: self.inbound.1,
            mirror: opt_mirror_view(self.mirror),
            local: opt_local_view(self.local),
        }
    }
}

pub open spec fn data_view(v: Seq<SyncLoginData>) -> Seq<SyncLoginDataView> {
    v.map_values(|d: SyncLoginData| d@)
}

} // verus!
