//! The named entry points a host may invoke, each as the plan of its
//! exchange.
#![allow(non_snake_case)]

use vstd::prelude::*;
use crate::exchange::{AddressSlot, EntryPlan, Status};

verus! {

/// The shared exchange: fetches the argument for `arg_id` and delivers the general result under it.
pub fn impls(arg_id: i64) -> (r: EntryPlan)
    ensures
        r == (EntryPlan { fetch_id: arg_id, address: None, status: Status::Nothing }),
{
    EntryPlan { fetch_id: arg_id, address: None, status: Status::Nothing }
}

/// Invocation lifecycle: invoke.
pub fn invoke(arg_id: i64) -> (r: EntryPlan)
    ensures
        r == (EntryPlan { fetch_id: arg_id, address: None, status: Status::Nothing }),
{
    EntryPlan { fetch_id: arg_id, address: None, status: Status::Nothing }
}

/// Invocation lifecycle: select; returns 1.
pub fn doSelect(arg_id: i64) -> (r: EntryPlan)
    ensures
        r == (EntryPlan { fetch_id: arg_id, address: None, status: Status::Int32(1) }),
{
    EntryPlan { fetch_id: arg_id, address: None, status: Status::Int32(1) }
}

/// Invocation lifecycle: route.
pub fn route(arg_id: i64) -> (r: EntryPlan)
    ensures
        r == (EntryPlan { fetch_id: arg_id, address: None, status: Status::Nothing }),
{
    EntryPlan { fetch_id: arg_id, address: None, status: Status::Nothing }
}

/// Export lifecycle: after un-export; always exchanges under identifier 3.
pub fn afterUnExport() -> (r: EntryPlan)
    ensures
        r == (EntryPlan { fetch_id: 3, address: None, status: Status::Nothing }),
{
    EntryPlan { fetch_id: 3, address: None, status: Status::Nothing }
}

/// Invocation lifecycle: do-invoke.
pub fn doInvoke(arg_id: i64) -> (r: EntryPlan)
    ensures
        r == (EntryPlan { fetch_id: arg_id, address: None, status: Status::Nothing }),
{
    EntryPlan { fetch_id: arg_id, address: None, status: Status::Nothing }
}

/// Export lifecycle: destroy; always exchanges under identifier 4.
pub fn destroy() -> (r: EntryPlan)
    ensures
        r == (EntryPlan { fetch_id: 4, address: None, status: Status::Nothing }),
{
    EntryPlan { fetch_id: 4, address: None, status: Status::Nothing }
}

/// Export lifecycle: destroy all; always exchanges under identifier 4.
pub fn destroyAll() -> (r: EntryPlan)
    ensures
        r == (EntryPlan { fetch_id: 4, address: None, status: Status::Nothing }),
{
    EntryPlan { fetch_id: 4, address: None, status: Status::Nothing }
}

/// Export lifecycle: refer.
pub fn refer(arg_id: i64) -> (r: EntryPlan)
    ensures
        r == (EntryPlan { fetch_id: arg_id, address: None, status: Status::Nothing }),
{
    EntryPlan { fetch_id: arg_id, address: None, status: Status::Nothing }
}

/// Export lifecycle: export.
pub fn export(arg_id: i64) -> (r: EntryPlan)
    ensures
        r == (EntryPlan { fetch_id: arg_id, address: None, status: Status::Nothing }),
{
    EntryPlan { fetch_id: arg_id, address: None, status: Status::Nothing }
}

/// Registry: register.
pub fn doRegister(arg_id: i64) -> (r: EntryPlan)
    ensures
        r == (EntryPlan { fetch_id: arg_id, address: None, status: Status::Nothing }),
{
    EntryPlan { fetch_id: arg_id, address: None, status: Status::Nothing }
}

/// Registry: unregister.
pub fn doUnregister(arg_id: i64) -> (r: EntryPlan)
    ensures
        r == (EntryPlan { fetch_id: arg_id, address: None, status: Status::Nothing }),
{
    EntryPlan { fetch_id: arg_id, address: None, status: Status::Nothing }
}

/// Registry: subscribe.
pub fn doSubscribe(arg_id: i64) -> (r: EntryPlan)
    ensures
        r == (EntryPlan { fetch_id: arg_id, address: None, status: Status::Nothing }),
{
    EntryPlan { fetch_id: arg_id, address: None, status: Status::Nothing }
}

/// Registry: unsubscribe.
pub fn doUnsubscribe(arg_id: i64) -> (r: EntryPlan)
    ensures
        r == (EntryPlan { fetch_id: arg_id, address: None, status: Status::Nothing }),
{
    EntryPlan { fetch_id: arg_id, address: None, status: Status::Nothing }
}

/// Registry: availability; always exchanges under identifier 6 and returns 1.
pub fn isAvailable() -> (r: EntryPlan)
    ensures
        r == (EntryPlan { fetch_id: 6, address: None, status: Status::Int32(1) }),
{
    EntryPlan { fetch_id: 6, address: None, status: Status::Int32(1) }
}

/// Registry: destroy; always exchanges under identifier 7.
pub fn doDestroy() -> (r: EntryPlan)
    ensures
        r == (EntryPlan { fetch_id: 7, address: None, status: Status::Nothing }),
{
    EntryPlan { fetch_id: 7, address: None, status: Status::Nothing }
}

/// Service discovery: list services; always exchanges under identifier 7 and returns 1.
pub fn getServices() -> (r: EntryPlan)
    ensures
        r == (EntryPlan { fetch_id: 7, address: None, status: Status::Int32(1) }),
{
    EntryPlan { fetch_id: 7, address: None, status: Status::Int32(1) }
}

/// Service discovery: list instances; returns 1.
pub fn getInstances(arg_id: i64) -> (r: EntryPlan)
    ensures
        r == (EntryPlan { fetch_id: arg_id, address: None, status: Status::Int32(1) }),
{
    EntryPlan { fetch_id: arg_id, address: None, status: Status::Int32(1) }
}

/// Service discovery: add a listener for instance changes.
pub fn addServiceInstancesChangedListener(arg_id: i64) -> (r: EntryPlan)
    ensures
        r == (EntryPlan { fetch_id: arg_id, address: None, status: Status::Nothing }),
{
    EntryPlan { fetch_id: arg_id, address: None, status: Status::Nothing }
}

/// Service discovery: remove a listener for instance changes.
pub fn removeServiceInstancesChangedListener(arg_id: i64) -> (r: EntryPlan)
    ensures
        r == (EntryPlan { fetch_id: arg_id, address: None, status: Status::Nothing }),
{
    EntryPlan { fetch_id: arg_id, address: None, status: Status::Nothing }
}

/// Config center: internal property lookup.
pub fn getInternalProperty(arg_id: i64) -> (r: EntryPlan)
    ensures
        r == (EntryPlan { fetch_id: arg_id, address: None, status: Status::Nothing }),
{
    EntryPlan { fetch_id: arg_id, address: None, status: Status::Nothing }
}

/// Config center: publish; returns 1.
pub fn doPublishConfig(arg_id: i64) -> (r: EntryPlan)
    ensures
        r == (EntryPlan { fetch_id: arg_id, address: None, status: Status::Int32(1) }),
{
    EntryPlan { fetch_id: arg_id, address: None, status: Status::Int32(1) }
}

/// Config center: read a config.
pub fn doGetConfig(arg_id: i64) -> (r: EntryPlan)
    ensures
        r == (EntryPlan { fetch_id: arg_id, address: None, status: Status::Nothing }),
{
    EntryPlan { fetch_id: arg_id, address: None, status: Status::Nothing }
}

/// Config center: remove; returns 1.
pub fn doRemoveConfig(arg_id: i64) -> (r: EntryPlan)
    ensures
        r == (EntryPlan { fetch_id: arg_id, address: None, status: Status::Int32(1) }),
{
    EntryPlan { fetch_id: arg_id, address: None, status: Status::Int32(1) }
}

/// Config center: list keys; returns 1.
pub fn doGetConfigKeys(arg_id: i64) -> (r: EntryPlan)
    ensures
        r == (EntryPlan { fetch_id: arg_id, address: None, status: Status::Int32(1) }),
{
    EntryPlan { fetch_id: arg_id, address: None, status: Status::Int32(1) }
}

/// Config center: one key item. The index is accepted and does not change the exchange.
pub fn doGetConfigKeyItem(arg_id: i64, index: i32) -> (r: EntryPlan)
    ensures
        r == (EntryPlan { fetch_id: arg_id, address: None, status: Status::Nothing }),
{
    EntryPlan { fetch_id: arg_id, address: None, status: Status::Nothing }
}

/// Config center: add a listener.
pub fn doAddListener(arg_id: i64) -> (r: EntryPlan)
    ensures
        r == (EntryPlan { fetch_id: arg_id, address: None, status: Status::Nothing }),
{
    EntryPlan { fetch_id: arg_id, address: None, status: Status::Nothing }
}

/// Config center: remove a listener.
pub fn doRemoveListener(arg_id: i64) -> (r: EntryPlan)
    ensures
        r == (EntryPlan { fetch_id: arg_id, address: None, status: Status::Nothing }),
{
    EntryPlan { fetch_id: arg_id, address: None, status: Status::Nothing }
}

/// Config center: close.
pub fn doClose(arg_id: i64) -> (r: EntryPlan)
    ensures
        r == (EntryPlan { fetch_id: arg_id, address: None, status: Status::Nothing }),
{
    EntryPlan { fetch_id: arg_id, address: None, status: Status::Nothing }
}

/// Config center: compare-and-set publish; returns 1.
pub fn publishConfigCas(arg_id: i64) -> (r: EntryPlan)
    ensures
        r == (EntryPlan { fetch_id: arg_id, address: None, status: Status::Int32(1) }),
{
    EntryPlan { fetch_id: arg_id, address: None, status: Status::Int32(1) }
}

/// Transport channel: send.
pub fn send(arg_id: i64) -> (r: EntryPlan)
    ensures
        r == (EntryPlan { fetch_id: arg_id, address: None, status: Status::Nothing }),
{
    EntryPlan { fetch_id: arg_id, address: None, status: Status::Nothing }
}

/// Transport channel: remote address name; exchanges under identifier 9, reports the address name through the remote-address slot and returns 9.
pub fn getRemoteAddressHost() -> (r: EntryPlan)
    ensures
        r == (EntryPlan { fetch_id: 9, address: Some(AddressSlot::Remote), status: Status::Int64(9) }),
{
    EntryPlan { fetch_id: 9, address: Some(AddressSlot::Remote), status: Status::Int64(9) }
}

/// Transport channel: remote port; exchanges under identifier 9 and returns 9999.
pub fn getRemoteAddressPort() -> (r: EntryPlan)
    ensures
        r == (EntryPlan { fetch_id: 9, address: None, status: Status::Int32(9999) }),
{
    EntryPlan { fetch_id: 9, address: None, status: Status::Int32(9999) }
}

/// Transport channel: connection state; exchanges under identifier 9 and returns 1.
pub fn isConnected() -> (r: EntryPlan)
    ensures
        r == (EntryPlan { fetch_id: 9, address: None, status: Status::Int32(1) }),
{
    EntryPlan { fetch_id: 9, address: None, status: Status::Int32(1) }
}

/// Transport channel: attribute presence; returns 1.
pub fn hasAttribute(arg_id: i64) -> (r: EntryPlan)
    ensures
        r == (EntryPlan { fetch_id: arg_id, address: None, status: Status::Int32(1) }),
{
    EntryPlan { fetch_id: arg_id, address: None, status: Status::Int32(1) }
}

/// Transport channel: read an attribute; returns 1.
pub fn getAttribute(arg_id: i64) -> (r: EntryPlan)
    ensures
        r == (EntryPlan { fetch_id: arg_id, address: None, status: Status::Int32(1) }),
{
    EntryPlan { fetch_id: arg_id, address: None, status: Status::Int32(1) }
}

/// Transport channel: write an attribute; returns 1.
pub fn setAttribute(arg_id: i64) -> (r: EntryPlan)
    ensures
        r == (EntryPlan { fetch_id: arg_id, address: None, status: Status::Int32(1) }),
{
    EntryPlan { fetch_id: arg_id, address: None, status: Status::Int32(1) }
}

/// Transport channel: remove an attribute; returns 1.
pub fn removeAttribute(arg_id: i64) -> (r: EntryPlan)
    ensures
        r == (EntryPlan { fetch_id: arg_id, address: None, status: Status::Int32(1) }),
{
    EntryPlan { fetch_id: arg_id, address: None, status: Status::Int32(1) }
}

/// Transport channel: local address name; exchanges under identifier 9, reports the address name through the local-address slot and returns 9.
pub fn getLocalAddressHost() -> (r: EntryPlan)
    ensures
        r == (EntryPlan { fetch_id: 9, address: Some(AddressSlot::Local), status: Status::Int64(9) }),
{
    EntryPlan { fetch_id: 9, address: Some(AddressSlot::Local), status: Status::Int64(9) }
}

/// Transport channel: local port; exchanges under identifier 9 and returns 9999.
pub fn getLocalAddressPort() -> (r: EntryPlan)
    ensures
        r == (EntryPlan { fetch_id: 9, address: None, status: Status::Int32(9999) }),
{
    EntryPlan { fetch_id: 9, address: None, status: Status::Int32(9999) }
}

/// Transport channel: close; exchanges under identifier 9.
pub fn closeChannel() -> (r: EntryPlan)
    ensures
        r == (EntryPlan { fetch_id: 9, address: None, status: Status::Nothing }),
{
    EntryPlan { fetch_id: 9, address: None, status: Status::Nothing }
}

} // verus!
