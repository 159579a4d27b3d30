use vstd::prelude::*;
use std::collections::HashMap;
use crate::buffer::{TransferBuffer, CAPACITY, clipped};

verus! {

broadcast use vstd::std_specs::hash::group_hash_axioms;

/// The host import that receives a delivery.
#[derive(Clone, Copy, Debug, PartialEq, Eq, Structural)]
pub enum Channel {
    /// The general result slot of an identifier.
    Result,
    /// The slot reporting a channel's remote address name.
    RemoteAddressHost,
    /// The slot reporting a channel's local address name.
    LocalAddressHost,
}

/// The argument payload the host holds for `id`; nothing for an unknown id.
pub open spec fn payload_of(arguments: Map<i64, Seq<u8>>, id: i64) -> Seq<u8> {
    if arguments.contains_key(id) {
        arguments[id]
    } else {
        Seq::empty()
    }
}

/// What a fetch for `id` stages in the transfer buffer: the payload held for
/// `id`, cut to the buffer's capacity.
pub open spec fn fetched(arguments: Map<i64, Seq<u8>>, id: i64) -> Seq<u8> {
    clipped(payload_of(arguments, id))
}

spec fn bytes_map(m: Map<i64, Vec<u8>>) -> Map<i64, Seq<u8>> {
    m.map_values(|v: Vec<u8>| v@)
}

/// An in-memory host: argument payloads stored per identifier, and the bytes
/// delivered to each channel per identifier.
pub struct HostStore {
    arguments: HashMap<i64, Vec<u8>>,
    results: HashMap<i64, Vec<u8>>,
    remote_hosts: HashMap<i64, Vec<u8>>,
    local_hosts: HashMap<i64, Vec<u8>>,
}

impl HostStore {
    /// The argument payload stored for each identifier.
    pub closed spec fn arguments(&self) -> Map<i64, Seq<u8>> {
        bytes_map(self.arguments@)
    }

    /// The bytes delivered through `channel` for each identifier.
    pub closed spec fn delivered(&self, channel: Channel) -> Map<i64, Seq<u8>> {
        match channel {
            Channel::Result => bytes_map(self.results@),
            Channel::RemoteAddressHost => bytes_map(self.remote_hosts@),
            Channel::LocalAddressHost => bytes_map(self.local_hosts@),
        }
    }

    /// A host holding no arguments and no deliveries.
    pub fn new() -> (r: HostStore)
        ensures
            r.arguments() == Map::<i64, Seq<u8>>::empty(),
            forall|c: Channel| r.delivered(c) == Map::<i64, Seq<u8>>::empty(),
    {
        let r = HostStore {
            arguments: HashMap::new(),
            results: HashMap::new(),
            remote_hosts: HashMap::new(),
            local_hosts: HashMap::new(),
        };
        assert(r.arguments() =~= Map::<i64, Seq<u8>>::empty());
        assert forall|c: Channel| r.delivered(c) == Map::<i64, Seq<u8>>::empty() by {
            assert(r.delivered(c) =~= Map::<i64, Seq<u8>>::empty());
        }
        r
    }

    /// Stores `payload` as the argument for `id`, replacing any earlier one.
    pub fn set_argument(&mut self, id: i64, payload: &[u8])
        ensures
            final(self).arguments() == old(self).arguments().insert(id, payload@),
            forall|c: Channel| final(self).delivered(c) == old(self).delivered(c),
    {
        let v = vstd::slice::slice_to_vec(payload);
        self.arguments.insert(id, v);
        assert(self.arguments() =~= old(self).arguments().insert(id, payload@));
    }

    /// The host side of a fetch: writes into `buf` as much of the argument
    /// for `id` as fits and reports the number of bytes written.
    pub fn get_args(&self, id: i64, buf: &mut TransferBuffer) -> (n: usize)
        ensures
            final(buf)@ == fetched(self.arguments(), id),
            n == final(buf)@.len(),
    {
        match self.arguments.get(&id) {
            Some(v) => buf.fill(v.as_slice()),
            None => buf.fill(&[]),
        }
    }

    /// The host side of a delivery: keeps exactly `bytes` as what `channel`
    /// holds for `id`.
    pub fn deliver(&mut self, channel: Channel, id: i64, bytes: &[u8])
        ensures
            final(self).arguments() == old(self).arguments(),
            final(self).delivered(channel) == old(self).delivered(channel).insert(id, bytes@),
            forall|c: Channel| c != channel ==> final(self).delivered(c) == old(self).delivered(c),
    {
        let v = vstd::slice::slice_to_vec(bytes);
        match channel {
            Channel::Result => self.results.insert(id, v),
            Channel::RemoteAddressHost => self.remote_hosts.insert(id, v),
            Channel::LocalAddressHost => self.local_hosts.insert(id, v),
        };
        assert(self.delivered(channel) =~= old(self).delivered(channel).insert(id, bytes@));
    }

    /// The bytes delivered through `channel` for `id`, if any.
    pub fn delivered_to(&self, channel: Channel, id: i64) -> (r: Option<&[u8]>)
        ensures
            r is Some <==> self.delivered(channel).contains_key(id),
            r matches Some(b) ==> b@ == self.delivered(channel)[id],
    {
        let m = match channel {
            Channel::Result => &self.results,
            Channel::RemoteAddressHost => &self.remote_hosts,
            Channel::LocalAddressHost => &self.local_hosts,
        };
        match m.get(&id) {
            Some(v) => Some(v.as_slice()),
            None => None,
        }
    }
}

/// A fetch for `id` stages exactly the payload stored for `id`, unmodified,
/// whenever that payload fits the transfer buffer.
pub proof fn lemma_fetch_exact(arguments: Map<i64, Seq<u8>>, id: i64, payload: Seq<u8>)
    requires
        payload.len() <= CAPACITY,
    ensures
        fetched(arguments.insert(id, payload), id) == payload,
{
}

/// A fetch for `id` of a payload longer than the transfer buffer stages its
/// first `CAPACITY` bytes: the rest is dropped, and no error is raised.
pub proof fn lemma_fetch_truncates(arguments: Map<i64, Seq<u8>>, id: i64, payload: Seq<u8>)
    requires
        payload.len() > CAPACITY,
    ensures
        fetched(arguments.insert(id, payload), id) == payload.take(CAPACITY as int),
        fetched(arguments.insert(id, payload), id).len() == CAPACITY,
{
}

/// After a delivery of `bytes` for `id`, the channel holds exactly `bytes`
/// for `id`, whatever they contain (empty and non-text bytes included), and
/// nothing else it holds changes.
pub proof fn lemma_delivery_round_trip(before: Map<i64, Seq<u8>>, id: i64, bytes: Seq<u8>)
    ensures
        before.insert(id, bytes).contains_key(id),
        before.insert(id, bytes)[id] == bytes,
        forall|k: i64| k != id ==> #[trigger] before.insert(id, bytes).contains_key(k)
            == before.contains_key(k),
        forall|k: i64| k != id && before.contains_key(k) ==> #[trigger] before.insert(id, bytes)[k]
            == before[k],
{
}

} // verus!
