//! The requests a writer serves when it runs as an actor, one at a time.
use vstd::prelude::*;
use rusqlite::Error as SqliteError;
use crate::error::Error;
use crate::writer::{Writer, write_domain_done, write_kv_done, close_result};

verus! {

/// A domain to add: its id and its name.
#[derive(Clone)]
pub struct Domain {
    pub domain_id: u32,
    pub domain: Vec<u8>,
}

/// A key and the value to store under it, in domain `domain_id`.
pub struct KV {
    pub domain_id: u32,
    pub key: Vec<u8>,
    pub value: Vec<u8>,
}

/// A request to the writer.
pub enum Request {
    Domain(Domain),
    KV(KV),
}

/// The state of the writer actor: the writer it serves requests with.
pub struct WriterContext {
    writer: Writer,
}

impl WriterContext {
    /// The writer this actor serves requests with.
    pub closed spec fn served_writer(self) -> Writer {
        self.writer
    }

    /// An actor state that serves requests with `writer`.
    pub fn new(writer: Writer) -> (ctx: WriterContext)
        ensures
            ctx.served_writer() == writer,
    {
        WriterContext { writer }
    }

    /// Serves one request with the writer.
    pub fn exec(&mut self, req: Request) -> (r: Result<(), Error>)
        ensures
            match req {
                Request::Domain(d) => write_domain_done(
                    r, old(self).served_writer().calls(), final(self).served_writer().calls(), d.domain_id, d.domain@,
                ),
                Request::KV(kv) => write_kv_done(
                    r, old(self).served_writer().calls(), final(self).served_writer().calls(), kv.domain_id, kv.key@, kv.value@,
                ),
            },
            final(self).served_writer().connection() == old(self).served_writer().connection(),
    {
        match req {
            Request::Domain(Domain { domain_id, domain }) => {
                self.writer.write_domain(domain_id, domain.as_slice())
            },
            Request::KV(KV { domain_id, key, value }) => {
                self.writer.write_kv(domain_id, key.as_slice(), value.as_slice())
            },
        }
    }

    /// Stops the actor: closes the writer (`Writer::close`).
    pub fn close(self) -> (r: Result<(), Error>)
        ensures
            exists|o: core::result::Result<(), (rusqlite::Connection, SqliteError)>| #[trigger] close_result(o) == r,
    {
        self.writer.close()
    }
}

} // verus!
