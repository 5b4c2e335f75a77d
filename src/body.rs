//! Reading a request body frame by frame against its declared length. The
//! transport hands each data frame to a `BodyReader` and calls `finish`
//! when the stream ends; the reader fails as soon as the body runs past the
//! declared length, and at the end if it fell short.
use vstd::prelude::*;
use crate::error::{ClientErrorModel, Error, client, mismatch_message, too_large_message};
use crate::http::Request;
use crate::number::usize_parse;
use crate::request::{content_length_check, header_lookup, validate_get_content_len};

verus! {

/// A body being received: the length the request declared, and the bytes
/// received so far, never more than that.
pub struct BodyReader {
    expected: usize,
    bytes: Vec<u8>,
}

/// The estimate of a body's length that a mismatch reports on overrun:
/// what was received, the frame that overran, and what the stream says
/// is still to come, capped at the largest `usize`.
pub open spec fn overrun_estimate(received: nat, frame: nat, hint: nat) -> nat {
    if received + frame + hint > usize::MAX {
        usize::MAX as nat
    } else {
        received + frame + hint
    }
}

/// A request whose declared length is over the maximum fails validation
/// with a too-large error, so no `BodyReader` is made for it and no byte of
/// its body is read.
pub proof fn lemma_oversized_body_refused(req: Request, max_len: nat)
    requires
        header_lookup(req, "Content-Length"@) matches Ok(Some(text)) && usize_parse(text) matches Ok(
            v,
        ) && v > max_len,
    ensures
        content_length_check(req, max_len) == Err::<nat, crate::error::ErrorModel>(
            client(
                ClientErrorModel::InvalidContentLength(
                    too_large_message(
                        usize_parse(header_lookup(req, "Content-Length"@)->Ok_0->Some_0)->Ok_0 as nat,
                        max_len,
                    ),
                ),
            ),
        ),
{
}

/// The length an overrun reports counts at least every byte received with
/// the overrunning frame, unless that is more than a `usize` holds; and it
/// is never below the declared length.
pub proof fn lemma_overrun_estimate(received: nat, frame: nat, hint: nat, expected: nat)
    requires
        received + frame > expected,
        expected <= usize::MAX,
    ensures
        overrun_estimate(received, frame, hint) >= received + frame || overrun_estimate(
            received,
            frame,
            hint,
        ) == usize::MAX,
        overrun_estimate(received, frame, hint) >= expected,
{
}

impl BodyReader {
    pub closed spec fn expected(&self) -> nat {
        self.expected as nat
    }

    pub closed spec fn received(&self) -> Seq<u8> {
        self.bytes@
    }

    pub closed spec fn wf(&self) -> bool {
        self.bytes@.len() <= self.expected
    }

    /// Starts reading the body of `req`, after checking its declared
    /// length. A declared length over `max_len` fails here, before any
    /// byte of the body is read.
    pub fn start(req: &Request, max_len: usize) -> (r: Result<BodyReader, Error>)
        ensures
            match content_length_check(*req, max_len as nat) {
                Ok(n) => r matches Ok(b) && b.wf() && b.expected() == n && b.received().len() == 0,
                Err(m) => r matches Err(e) && e@ == m,
            },
    {
        let expected = validate_get_content_len(req, max_len)?;
        Ok(BodyReader { expected, bytes: Vec::new() })
    }

    /// Takes one data frame. `more_hint` is the least number of bytes the
    /// stream says are still to come; it only feeds the estimate that an
    /// overrun reports. On overrun nothing is kept of the frame.
    pub fn push_frame(&mut self, data: &[u8], more_hint: usize) -> (r: Result<(), Error>)
        requires
            old(self).wf(),
        ensures
            final(self).wf(),
            final(self).expected() == old(self).expected(),
            if old(self).received().len() + data@.len() > old(self).expected() {
                &&& final(self).received() == old(self).received()
                &&& r matches Err(e) && e@ == client(
                    ClientErrorModel::InvalidContentLength(
                        mismatch_message(
                            overrun_estimate(
                                old(self).received().len(),
                                data@.len(),
                                more_hint as nat,
                            ),
                            old(self).expected(),
                        ),
                    ),
                )
            } else {
                r is Ok && final(self).received() == old(self).received() + data@
            },
    {
        let have = self.bytes.len();
        if data.len() > self.expected - have {
            let sum = have as u128 + data.len() as u128 + more_hint as u128;
            let estimate: usize = if sum > usize::MAX as u128 {
                usize::MAX
            } else {
                sum as usize
            };
            return Err(Error::content_length_mismatch(estimate, self.expected));
        }
        self.bytes.extend_from_slice(data);
        Ok(())
    }

    /// Ends the body: it is the bytes received if they are as many as
    /// declared, else a mismatch.
    pub fn finish(self) -> (r: Result<Vec<u8>, Error>)
        requires
            self.wf(),
        ensures
            if self.received().len() < self.expected() {
                r matches Err(e) && e@ == client(
                    ClientErrorModel::InvalidContentLength(
                        mismatch_message(self.received().len(), self.expected()),
                    ),
                )
            } else {
                r matches Ok(b) && b@ == self.received() && b@.len() == self.expected()
            },
    {
        if self.bytes.len() < self.expected {
            Err(Error::content_length_mismatch(self.bytes.len(), self.expected))
        } else {
            Ok(self.bytes)
        }
    }
}

/// The bytes received after feeding `chunks` to a reader that holds
/// `received`, or `None` if some chunk overruns the declared length.
pub open spec fn feed(expected: nat, received: Seq<u8>, chunks: Seq<Seq<u8>>) -> Option<Seq<u8>>
    decreases chunks.len(),
{
    if chunks.len() == 0 {
        Some(received)
    } else if received.len() + chunks[0].len() > expected {
        None
    } else {
        feed(expected, received + chunks[0], chunks.drop_first())
    }
}

/// The body that a reader accepts from a stream of `chunks`, as
/// `push_frame` and `finish` decide step by step; `None` is a mismatch.
pub open spec fn body_outcome(expected: nat, chunks: Seq<Seq<u8>>) -> Option<Seq<u8>> {
    match feed(expected, Seq::empty(), chunks) {
        None => None,
        Some(b) => if b.len() < expected {
            None
        } else {
            Some(b)
        },
    }
}

/// All the chunks, one after another.
pub open spec fn concat_all(chunks: Seq<Seq<u8>>) -> Seq<u8>
    decreases chunks.len(),
{
    if chunks.len() == 0 {
        Seq::empty()
    } else {
        chunks[0] + concat_all(chunks.drop_first())
    }
}

proof fn lemma_feed(expected: nat, received: Seq<u8>, chunks: Seq<Seq<u8>>)
    requires
        received.len() <= expected,
    ensures
        feed(expected, received, chunks) == if received.len() + concat_all(chunks).len() <= expected {
            Some(received + concat_all(chunks))
        } else {
            None::<Seq<u8>>
        },
    decreases chunks.len(),
{
    if chunks.len() == 0 {
        assert(received + concat_all(chunks) =~= received);
    } else {
        let rest = chunks.drop_first();
        assert(concat_all(chunks) == chunks[0] + concat_all(rest));
        assert(concat_all(chunks).len() == chunks[0].len() + concat_all(rest).len());
        if received.len() + chunks[0].len() <= expected {
            lemma_feed(expected, received + chunks[0], rest);
            assert(received + chunks[0] + concat_all(rest) =~= received + concat_all(chunks));
        }
    }
}

/// A body is accepted exactly when the bytes delivered are as many as the
/// declared length, and it is then those bytes: a stream that delivers more
/// or fewer fails with a length mismatch.
pub proof fn lemma_body_length_must_match(expected: nat, chunks: Seq<Seq<u8>>)
    ensures
        body_outcome(expected, chunks) == if concat_all(chunks).len() == expected {
            Some(concat_all(chunks))
        } else {
            None::<Seq<u8>>
        },
{
    lemma_feed(expected, Seq::empty(), chunks);
    assert(Seq::<u8>::empty() + concat_all(chunks) =~= concat_all(chunks));
}

} // verus!
