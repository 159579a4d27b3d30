use vstd::prelude::*;
use vstd::utf8::{valid_utf8, decode_utf8};
use vstd::string::StringSliceAdditionalSpecFns;
use crate::buffer::TransferBuffer;
use crate::host::{Channel, HostStore, fetched};
use crate::text::{DecodeError, from_utf8};

verus! {

/// Bytes delivered as the general result of every exchange.
pub const RESULT_TEXT: &'static str = "rust result";

/// Address name reported by the channel entries.
pub const ADDRESS_NAME: &'static str = "localhost";

/// The scalar an entry point hands back to the host.
#[derive(Clone, Copy, Debug, PartialEq, Eq, Structural)]
pub enum Status {
    /// The entry point returns nothing.
    Nothing,
    /// A 32-bit status or value.
    Int32(i32),
    /// A 64-bit status or value.
    Int64(i64),
}

/// The host slot through which a channel entry reports an address name.
#[derive(Clone, Copy, Debug, PartialEq, Eq, Structural)]
pub enum AddressSlot {
    Remote,
    Local,
}

impl AddressSlot {
    /// The delivery channel of the slot.
    pub open spec fn spec_channel(self) -> Channel {
        match self {
            AddressSlot::Remote => Channel::RemoteAddressHost,
            AddressSlot::Local => Channel::LocalAddressHost,
        }
    }

    /// The delivery channel of the slot.
    pub fn channel(&self) -> (r: Channel)
        ensures
            r == self.spec_channel(),
    {
        match self {
            AddressSlot::Remote => Channel::RemoteAddressHost,
            AddressSlot::Local => Channel::LocalAddressHost,
        }
    }
}

/// What one entry point does in one invocation: the identifier it fetches
/// and delivers under, the slot through which it also reports the address
/// name, if any, and the status it returns.
#[derive(Clone, Copy, Debug, PartialEq, Eq, Structural)]
pub struct EntryPlan {
    pub fetch_id: i64,
    pub address: Option<AddressSlot>,
    pub status: Status,
}

/// One delivery to the host: `bytes` for `id` through `channel`.
#[derive(Debug)]
pub struct Delivery {
    pub channel: Channel,
    pub id: i64,
    pub bytes: Vec<u8>,
}

impl View for Delivery {
    type V = (Channel, i64, Seq<u8>);

    open spec fn view(&self) -> (Channel, i64, Seq<u8>) {
        (self.channel, self.id, self.bytes@)
    }
}

/// The guest's answer once the argument has been fetched and decoded.
#[derive(Debug)]
pub struct Reply {
    /// The fetched argument as text.
    pub argument: String,
    /// The deliveries to make, in order.
    pub deliveries: Vec<Delivery>,
    /// The value the entry point returns.
    pub status: Status,
}

/// The deliveries a plan makes after a successful fetch: the general result
/// under the fetched identifier, then the address name when the plan reports
/// one.
pub open spec fn planned(plan: EntryPlan) -> Seq<(Channel, i64, Seq<u8>)> {
    let first = seq![(Channel::Result, plan.fetch_id, RESULT_TEXT.spec_bytes())];
    match plan.address {
        Some(a) => first.push((a.spec_channel(), plan.fetch_id, ADDRESS_NAME.spec_bytes())),
        None => first,
    }
}

/// What `channel` holds for each identifier once the deliveries `ds` have
/// been made in order, starting from `m`.
spec fn after_deliveries(
    m: Map<i64, Seq<u8>>,
    channel: Channel,
    ds: Seq<(Channel, i64, Seq<u8>)>,
) -> Map<i64, Seq<u8>>
    decreases ds.len(),
{
    if ds.len() == 0 {
        m
    } else {
        let prev = after_deliveries(m, channel, ds.drop_last());
        let d = ds.last();
        if d.0 == channel {
            prev.insert(d.1, d.2)
        } else {
            prev
        }
    }
}

/// What `channel` holds for each identifier after a successful run of
/// `plan`, starting from `m`: the general result under the fetched
/// identifier on the result channel, the address name under it on the
/// plan's address slot, and no change elsewhere.
pub open spec fn after_run(plan: EntryPlan, channel: Channel, m: Map<i64, Seq<u8>>) -> Map<
    i64,
    Seq<u8>,
> {
    if channel == Channel::Result {
        m.insert(plan.fetch_id, RESULT_TEXT.spec_bytes())
    } else if plan.address matches Some(a) && a.spec_channel() == channel {
        m.insert(plan.fetch_id, ADDRESS_NAME.spec_bytes())
    } else {
        m
    }
}

proof fn lemma_planned_effect(plan: EntryPlan, channel: Channel, m: Map<i64, Seq<u8>>)
    ensures
        after_deliveries(m, channel, planned(plan)) == after_run(plan, channel, m),
{
    let ds = planned(plan);
    let empty = Seq::<(Channel, i64, Seq<u8>)>::empty();
    let d0 = seq![ds[0]];
    assert(d0.drop_last() =~= empty);
    assert(after_deliveries(m, channel, empty) == m);
    let once = after_deliveries(m, channel, d0);
    assert(once == if ds[0].0 == channel {
        m.insert(ds[0].1, ds[0].2)
    } else {
        m
    });
    if plan.address is Some {
        assert(ds.drop_last() =~= d0);
    } else {
        assert(ds =~= d0);
    }
}

impl EntryPlan {
    /// Decides the answer to the fetched argument bytes: the deliveries of
    /// `planned` and the plan's status when the bytes are well-formed UTF-8,
    /// else the decode error and nothing to deliver.
    pub fn respond(&self, fetched: &[u8]) -> (r: Result<Reply, DecodeError>)
        ensures
            r is Ok <==> valid_utf8(fetched@),
            r matches Ok(reply) ==> {
                &&& reply.argument@ == decode_utf8(fetched@)
                &&& reply.deliveries@.map_values(|d: Delivery| d@) == planned(*self)
                &&& reply.status == self.status
            },
            r matches Err(e) ==> e.valid_up_to < fetched@.len() && valid_utf8(
                fetched@.take(e.valid_up_to as int),
            ),
    {
        match from_utf8(fetched) {
            Err(e) => Err(e),
            Ok(argument) => {
                let mut deliveries: Vec<Delivery> = Vec::new();
                deliveries.push(
                    Delivery {
                        channel: Channel::Result,
                        id: self.fetch_id,
                        bytes: vstd::slice::slice_to_vec(RESULT_TEXT.as_bytes()),
                    },
                );
                match self.address {
                    Some(a) => {
                        deliveries.push(
                            Delivery {
                                channel: a.channel(),
                                id: self.fetch_id,
                                bytes: vstd::slice::slice_to_vec(ADDRESS_NAME.as_bytes()),
                            },
                        );
                    },
                    None => {},
                }
                assert(deliveries@.map_values(|d: Delivery| d@) =~= planned(*self));
                Ok(Reply { argument, deliveries, status: self.status })
            },
        }
    }
}

/// Runs one invocation of `plan` against the in-memory host: fetches the
/// argument into a fresh transfer buffer, decodes it and, when that
/// succeeds, makes the planned deliveries and returns the plan's status. A
/// decode failure leaves every channel of the host as it was.
pub fn run_in(host: &mut HostStore, plan: &EntryPlan) -> (r: Result<Status, DecodeError>)
    ensures
        r is Ok <==> valid_utf8(fetched(old(host).arguments(), plan.fetch_id)),
        final(host).arguments() == old(host).arguments(),
        r is Err ==> forall|c: Channel| final(host).delivered(c) == old(host).delivered(c),
        r matches Ok(s) ==> {
            &&& s == plan.status
            &&& forall|c: Channel| #[trigger] final(host).delivered(c)
                == after_run(*plan, c, old(host).delivered(c))
        },
{
    let mut buf = TransferBuffer::new();
    host.get_args(plan.fetch_id, &mut buf);
    match plan.respond(buf.contents()) {
        Err(e) => Err(e),
        Ok(reply) => {
            let ghost ds = planned(*plan);
            let ghost start = *host;
            let mut i: usize = 0;
            while i < reply.deliveries.len()
                invariant
                    i <= reply.deliveries@.len(),
                    reply.deliveries@.map_values(|d: Delivery| d@) == ds,
                    host.arguments() == start.arguments(),
                    forall|c: Channel| #[trigger] host.delivered(c)
                        == after_deliveries(start.delivered(c), c, ds.take(i as int)),
                decreases reply.deliveries@.len() - i,
            {
                let d = &reply.deliveries[i];
                host.deliver(d.channel, d.id, d.bytes.as_slice());
                proof {
                    assert(ds.take(i + 1).drop_last() =~= ds.take(i as int));
                    assert(ds[i as int] == d@);
                }
                i = i + 1;
            }
            proof {
                assert(ds.take(i as int) =~= ds);
                assert forall|c: Channel| #[trigger] host.delivered(c)
                    == after_run(*plan, c, start.delivered(c)) by {
                    lemma_planned_effect(*plan, c, start.delivered(c));
                }
            }
            Ok(reply.status)
        },
    }
}

} // verus!
