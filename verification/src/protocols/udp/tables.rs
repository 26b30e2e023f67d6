//! The two tables of the peer, each a `hashbrown::HashMap`: the sockets by
//! their descriptor and the names of the listeners by their endpoint.
//!
//! Nothing in this file is proved. Each function makes one call into
//! `hashbrown`, and its contract says what that call does to the entries of
//! the table. The two tables differ in the types of their keys and values, so
//! `new`, `get`, `insert` and `remove` are stated once for each, in the same
//! words.
//! The keys are integers and pairs of integers, whose hash and equality are
//! those of the standard library.

use crate::file_table::FileDescriptor;
use crate::protocols::ipv4::Endpoint;
use crate::protocols::udp::listener::ListenerId;
use crate::protocols::udp::model::Socket;
use hashbrown::HashMap;
use vstd::prelude::*;

verus! {

/// The sockets by descriptor, in a `hashbrown::HashMap`.
#[verifier::external_body]
pub struct SocketTable {
    map: HashMap<FileDescriptor, Socket>,
}

/// The listener of each bound endpoint, by its name, in a
/// `hashbrown::HashMap`. The key of an endpoint is the pair of the number of
/// its address and its port.
#[verifier::external_body]
pub struct BindingTable {
    map: HashMap<(u32, u16), ListenerId>,
}

/// The entries of a table of sockets.
pub uninterp spec fn socket_entries(table: SocketTable) -> Map<FileDescriptor, Socket>;

/// The entries of a table of bindings, each under the endpoint that its key
/// stands for.
pub uninterp spec fn binding_entries(table: BindingTable) -> Map<Endpoint, ListenerId>;

/// `HashMap::new`: a map without entries.
#[verifier::external_body]
pub(crate) fn socket_table_new() -> (table: SocketTable)
    ensures
        socket_entries(table) == (Map::<FileDescriptor, Socket>::empty()),
{
    SocketTable { map: HashMap::new() }
}

/// `HashMap::get`: the value under the key, if the map has the key.
#[verifier::external_body]
pub(crate) fn socket_table_get(table: &SocketTable, fd: FileDescriptor) -> (socket: Option<Socket>)
    ensures
        socket == (if socket_entries(*table).contains_key(fd) {
            Some(socket_entries(*table)[fd])
        } else {
            None
        }),
{
    table.map.get(&fd).copied()
}

/// `HashMap::insert`: the key now has the value, the other entries stay, and
/// the value that the key had before, if it had one, is returned.
#[verifier::external_body]
pub(crate) fn socket_table_insert(table: &mut SocketTable, fd: FileDescriptor, socket: Socket) -> (previous:
    Option<Socket>)
    ensures
        socket_entries(*final(table)) == socket_entries(*old(table)).insert(fd, socket),
        previous == (if socket_entries(*old(table)).contains_key(fd) {
            Some(socket_entries(*old(table))[fd])
        } else {
            None
        }),
{
    table.map.insert(fd, socket)
}

/// `HashMap::remove`: the key has no value any more, the other entries stay,
/// and the value that the key had, if it had one, is returned.
#[verifier::external_body]
pub(crate) fn socket_table_remove(table: &mut SocketTable, fd: FileDescriptor) -> (removed: Option<Socket>)
    ensures
        socket_entries(*final(table)) == socket_entries(*old(table)).remove(fd),
        removed == (if socket_entries(*old(table)).contains_key(fd) {
            Some(socket_entries(*old(table))[fd])
        } else {
            None
        }),
{
    table.map.remove(&fd)
}

/// `HashMap::new`: a map without entries.
#[verifier::external_body]
pub(crate) fn binding_table_new() -> (table: BindingTable)
    ensures
        binding_entries(table) == (Map::<Endpoint, ListenerId>::empty()),
{
    BindingTable { map: HashMap::new() }
}

/// `HashMap::get`: the value under the key, if the map has the key.
#[verifier::external_body]
pub(crate) fn binding_table_get(table: &BindingTable, endpoint: Endpoint) -> (listener: Option<
    ListenerId,
>)
    ensures
        listener == (if binding_entries(*table).contains_key(endpoint) {
            Some(binding_entries(*table)[endpoint])
        } else {
            None
        }),
{
    table.map.get(&(endpoint.addr.bits, endpoint.port)).copied()
}

/// `HashMap::insert`: the key now has the value, the other entries stay, and
/// the value that the key had before, if it had one, is returned.
#[verifier::external_body]
pub(crate) fn binding_table_insert(table: &mut BindingTable, endpoint: Endpoint, listener: ListenerId) -> (previous:
    Option<ListenerId>)
    ensures
        binding_entries(*final(table)) == binding_entries(*old(table)).insert(endpoint, listener),
        previous == (if binding_entries(*old(table)).contains_key(endpoint) {
            Some(binding_entries(*old(table))[endpoint])
        } else {
            None
        }),
{
    table.map.insert((endpoint.addr.bits, endpoint.port), listener)
}

/// `HashMap::remove`: the key has no value any more, the other entries stay,
/// and the value that the key had, if it had one, is returned.
#[verifier::external_body]
pub(crate) fn binding_table_remove(table: &mut BindingTable, endpoint: Endpoint) -> (removed: Option<
    ListenerId,
>)
    ensures
        binding_entries(*final(table)) == binding_entries(*old(table)).remove(endpoint),
        removed == (if binding_entries(*old(table)).contains_key(endpoint) {
            Some(binding_entries(*old(table))[endpoint])
        } else {
            None
        }),
{
    table.map.remove(&(endpoint.addr.bits, endpoint.port))
}

} // verus!
