use vstd::prelude::*;
use crate::persistence::{restored_server, snapshot_of, KircStateSnapshot, ServerStateSnapshot};
use crate::state::kirc::{restored_servers, saves_state, KircState};
use crate::state::server::ServerState;

verus! {

/// A saved record that restores to a value of `T`.
pub trait Memento<T>: Sized {
    fn restore(self) -> T;
}

/// A value that can be saved as a record of type `T`.
pub trait Originator<T> {
    fn snapshot(&self) -> T;
}

impl Memento<ServerState> for ServerStateSnapshot {
    fn restore(self) -> (s: ServerState)
        ensures
            s@ == restored_server(self@),
    {
        ServerStateSnapshot::restore(self)
    }
}

impl Memento<KircState> for KircStateSnapshot {
    fn restore(self) -> (s: KircState)
        ensures
            exists|ids: Seq<u128>|
                #[trigger] restored_servers(self@, ids) == s@.servers && ids.len() == self@.len()
                    && ids.no_duplicates(),
            s@.servers.dom().len() == self@.len(),
            s@.persistence_path is None,
    {
        KircStateSnapshot::restore(self)
    }
}

impl Originator<ServerStateSnapshot> for ServerState {
    fn snapshot(&self) -> (s: ServerStateSnapshot)
        ensures
            s@ == snapshot_of(self@),
    {
        ServerState::snapshot(self)
    }
}

impl Originator<KircStateSnapshot> for KircState {
    fn snapshot(&self) -> (s: KircStateSnapshot)
        ensures
            saves_state(s@, self@),
    {
        KircState::snapshot(self)
    }
}

} // verus!
