//! A scripted bus transport for exercising the driver without hardware.
//!
//! Replies are queued up front and handed out in order, one per transaction;
//! a transaction past the end of the script fails. Every transaction is also
//! recorded at run time, and each record provably mirrors the corresponding
//! entry of the ghost history, so a caller can check after the fact what
//! traffic the driver put on the bus.

use vstd::prelude::*;

use crate::transport::Transaction;
use crate::transport::WriteRead;

verus! {

/// Error code reported when a transaction runs past the end of the script.
pub const SCRIPT_EXHAUSTED: u8 = 0xFF;

/// The scripted transport's own error: a bare numeric code.
#[derive(Clone, Copy, PartialEq, Eq, Structural, Debug)]
pub struct MockError {
    pub code: u8,
}

/// One transaction as the scripted transport observed it at run time.
pub struct Issued {
    /// Bus address the transaction went to.
    pub address: u8,
    /// Bytes written before the read.
    pub write: Vec<u8>,
    /// How many reply bytes the caller asked for.
    pub read_len: usize,
    /// What the transaction returned: the reply bytes handed to the caller,
    /// or the error reported.
    pub response: Result<Vec<u8>, MockError>,
}

/// The transaction that a runtime record stands for.
pub open spec fn issued_view(t: Issued) -> Transaction<MockError> {
    Transaction {
        address: t.address,
        write: t.write@,
        response: match t.response {
            Ok(reply) => Ok(reply@),
            Err(e) => Err(e),
        },
    }
}

/// A scripted bus transport: replies are consumed front first, one per
/// transaction, and every transaction is recorded.
pub struct MockTransport {
    script: Vec<Result<Vec<u8>, MockError>>,
    past: Vec<Issued>,
}

impl MockTransport {
    /// A transport with an empty script and an empty record. Until replies
    /// are queued, every transaction fails with [`SCRIPT_EXHAUSTED`].
    pub fn new() -> (r: MockTransport)
        ensures
            r.history() == Seq::<Transaction<MockError>>::empty(),
    {
        let r = MockTransport { script: Vec::new(), past: Vec::new() };
        proof {
            assert(r.history() =~= Seq::<Transaction<MockError>>::empty());
        }
        r
    }

    /// Queue a successful reply at the end of the script.
    pub fn push_reply(&mut self, reply: Vec<u8>)
        ensures
            final(self).history() == old(self).history(),
    {
        self.script.push(Ok(reply));
    }

    /// Queue a failure at the end of the script.
    pub fn push_failure(&mut self, error: MockError)
        ensures
            final(self).history() == old(self).history(),
    {
        self.script.push(Err(error));
    }

    /// How many transactions have been issued on this transport.
    pub fn request_count(&self) -> (n: usize)
        ensures
            n == self.history().len(),
    {
        self.past.len()
    }

    /// The `i`-th transaction issued, oldest first. The runtime record
    /// equals the corresponding entry of the ghost history.
    pub fn request(&self, i: usize) -> (r: &Issued)
        requires
            i < self.history().len(),
        ensures
            issued_view(*r) == self.history()[i as int],
    {
        &self.past[i]
    }
}

impl WriteRead for MockTransport {
    type Error = MockError;

    closed spec fn history(&self) -> Seq<Transaction<MockError>> {
        self.past@.map_values(|t: Issued| issued_view(t))
    }

    fn write_read(&mut self, address: u8, bytes: &[u8], buffer: &mut Vec<u8>) -> (r: Result<
        (),
        MockError,
    >) {
        let reply: Result<Vec<u8>, MockError> = if self.script.len() > 0 {
            self.script.remove(0)
        } else {
            Err(MockError { code: SCRIPT_EXHAUSTED })
        };
        let mut wcopy: Vec<u8> = Vec::new();
        let mut i: usize = 0;
        while i < bytes.len()
            invariant
                i <= bytes@.len(),
                wcopy@ == bytes@.take(i as int),
            decreases bytes@.len() - i,
        {
            wcopy.push(bytes[i]);
            proof {
                assert(wcopy@ =~= bytes@.take(i + 1));
            }
            i = i + 1;
        }
        proof {
            assert(wcopy@ =~= bytes@);
        }
        let n = buffer.len();
        let (result, issued): (Result<(), MockError>, Issued) = match reply {
            Ok(rep) => {
                let mut filled: Vec<u8> = Vec::new();
                let mut stored: Vec<u8> = Vec::new();
                let mut j: usize = 0;
                while j < n
                    invariant
                        j <= n,
                        filled@.len() == j,
                        stored@ == filled@,
                    decreases n - j,
                {
                    let b: u8 = if j < rep.len() {
                        rep[j]
                    } else {
                        0u8
                    };
                    filled.push(b);
                    stored.push(b);
                    j = j + 1;
                }
                *buffer = filled;
                (
                    Ok(()),
                    Issued { address: address, write: wcopy, read_len: n, response: Ok(stored) },
                )
            },
            Err(e) => {
                (
                    Err(e),
                    Issued { address: address, write: wcopy, read_len: n, response: Err(e) },
                )
            },
        };
        self.past.push(issued);
        proof {
            assert(self.history() =~= old(self).history().push(issued_view(issued)));
        }
        result
    }
}

} // verus!
