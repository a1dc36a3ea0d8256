//! The shared context: the single process-wide container holding the
//! registered client handle behind a reader-writer discipline. It is
//! constructed once, after the whole handshake has succeeded, so no
//! downstream consumer can ever observe an unregistered handle.

use vstd::prelude::*;
use vstd::rwlock::RwLock;
use vstd::rwlock::ReadHandle;

use crate::handshake::RegisteredClient;

verus! {

/// The process-wide container for the registered client handle. Any number
/// of request-handling tasks may read the handle concurrently; replacing it
/// takes exclusive access, excluding all readers until it completes.
pub struct Context {
    discovery_client: RwLock<RegisteredClient, spec_fn(RegisteredClient) -> bool>,
}

impl Context {
    /// Every value the lock can hold is a well-formed registered handle.
    pub closed spec fn wf(self) -> bool {
        forall|c: RegisteredClient| #[trigger] self.discovery_client.inv(c) == c.wf()
    }

    /// Wraps the client handle produced by a completed handshake. This is
    /// the only way to build a context, so a context always holds a handle
    /// that a successful registration returned.
    pub fn new(client: RegisteredClient) -> (ctx: Context)
        requires
            client.wf(),
        ensures
            ctx.wf(),
    {
        let lock = RwLock::new(client, Ghost(|c: RegisteredClient| c.wf()));
        Context { discovery_client: lock }
    }

    /// Acquires shared read access to the client handle. Readers never
    /// exclude one another: any number of read handles may be held at the
    /// same time, and each observes a well-formed registered handle.
    pub fn acquire_read(&self) -> (h: ReadHandle<'_, RegisteredClient, spec_fn(
        RegisteredClient,
    ) -> bool>)
        requires
            self.wf(),
        ensures
            h.view().wf(),
    {
        let h = self.discovery_client.acquire_read();
        h
    }

    /// Replaces the client handle under exclusive access, waiting for all
    /// current readers to release and excluding new ones until done. The
    /// current design never re-registers, so nothing calls this path at
    /// runtime; it is here to pin the write half of the discipline down.
    pub fn replace(&self, client: RegisteredClient) -> (previous: RegisteredClient)
        requires
            self.wf(),
            client.wf(),
        ensures
            previous.wf(),
    {
        let (previous, writer) = self.discovery_client.acquire_write();
        writer.release_write(client);
        previous
    }
}

} // verus!
