//! A builder for the host's INI configuration buffer.
//!
//! Directives accumulate in one owned byte buffer; `finish` hands the buffer
//! over, or reports that nothing was ever appended.  Every entry point
//! converts its arguments into host string data first, so a byte sequence
//! with an embedded terminator is rejected before it can reach the buffer.

use vstd::prelude::*;

use crate::Error;
use crate::contains_nul;
use crate::has_nul;

verus! {

/// The line an unquoted name-value pair appends: `name=value` and a newline.
pub open spec fn unquoted_line(name: Seq<u8>, value: Seq<u8>) -> Seq<u8> {
    name + seq![61u8] + value + seq![10u8]
}

/// The line a quoted name-value pair appends: `name="value"` and a newline.
pub open spec fn quoted_line(name: Seq<u8>, value: Seq<u8>) -> Seq<u8> {
    name + seq![61u8, 34u8] + value + seq![34u8, 10u8]
}

/// The line a directive appends: the directive text and a newline.
pub open spec fn directive_line(value: Seq<u8>) -> Seq<u8> {
    value + seq![10u8]
}

/// A builder for creating INI configurations.
///
/// The builder has no effect outside its own buffer until `finish` consumes
/// it; a builder that is dropped instead leaves nothing behind.
pub struct IniBuilder {
    buffer: Vec<u8>,
    touched: bool,
}

impl IniBuilder {
    /// The bytes accumulated so far.
    pub closed spec fn buffer_bytes(self) -> Seq<u8> {
        self.buffer@
    }

    /// Whether any operation has appended to the builder.  A builder that
    /// was never written finishes into the host's null result.
    pub closed spec fn written(self) -> bool {
        self.touched
    }

    /// Creates a new INI builder with an empty buffer.
    pub fn new() -> (b: IniBuilder)
        ensures
            b.buffer_bytes() == Seq::<u8>::empty(),
            !b.written(),
    {
        IniBuilder { buffer: Vec::new(), touched: false }
    }

    /// Places raw text in front of everything appended so far.
    ///
    /// On a value with an embedded terminator the builder is left exactly
    /// as it was and the conversion failure is reported.
    pub fn prepend(&mut self, value: &[u8]) -> (r: Result<(), Error>)
        ensures
            has_nul(value@) ==> r == Err::<(), Error>(Error::StringConversionFailure)
                && *final(self) == *old(self),
            !has_nul(value@) ==> r == Ok::<(), Error>(())
                && final(self).buffer_bytes() == value@ + old(self).buffer_bytes()
                && final(self).written(),
    {
        if contains_nul(value) {
            return Err(Error::StringConversionFailure);
        }
        let mut fresh: Vec<u8> = Vec::new();
        append_bytes(&mut fresh, value);
        let mut i: usize = 0;
        let n = self.buffer.len();
        while i < n
            invariant
                0 <= i <= n,
                n == old(self).buffer@.len(),
                self.buffer@ == old(self).buffer@,
                self.touched == old(self).touched,
                fresh@ == value@ + old(self).buffer@.take(i as int),
            decreases n - i,
        {
            fresh.push(self.buffer[i]);
            i += 1;
        }
        proof {
            assert(fresh@ == value@ + old(self).buffer@);
        }
        self.buffer = fresh;
        self.touched = true;
        Ok(())
    }

    /// Appends an unquoted `name=value` pair on a line of its own.
    ///
    /// On an embedded terminator in either argument the builder is left
    /// exactly as it was and the conversion failure is reported.
    pub fn unquoted(&mut self, name: &[u8], value: &[u8]) -> (r: Result<(), Error>)
        ensures
            has_nul(name@) || has_nul(value@) ==> r == Err::<(), Error>(
                Error::StringConversionFailure,
            ) && *final(self) == *old(self),
            !has_nul(name@) && !has_nul(value@) ==> r == Ok::<(), Error>(())
                && final(self).buffer_bytes() == old(self).buffer_bytes()
                    + unquoted_line(name@, value@)
                && final(self).written(),
    {
        if contains_nul(name) || contains_nul(value) {
            return Err(Error::StringConversionFailure);
        }
        append_bytes(&mut self.buffer, name);
        self.buffer.push(61u8);
        append_bytes(&mut self.buffer, value);
        self.buffer.push(10u8);
        self.touched = true;
        proof {
            assert(self.buffer@ == old(self).buffer@ + unquoted_line(name@, value@));
        }
        Ok(())
    }

    /// Appends a quoted `name="value"` pair on a line of its own.
    ///
    /// On an embedded terminator in either argument the builder is left
    /// exactly as it was and the conversion failure is reported.
    pub fn quoted(&mut self, name: &[u8], value: &[u8]) -> (r: Result<(), Error>)
        ensures
            has_nul(name@) || has_nul(value@) ==> r == Err::<(), Error>(
                Error::StringConversionFailure,
            ) && *final(self) == *old(self),
            !has_nul(name@) && !has_nul(value@) ==> r == Ok::<(), Error>(())
                && final(self).buffer_bytes() == old(self).buffer_bytes()
                    + quoted_line(name@, value@)
                && final(self).written(),
    {
        if contains_nul(name) || contains_nul(value) {
            return Err(Error::StringConversionFailure);
        }
        append_bytes(&mut self.buffer, name);
        self.buffer.push(61u8);
        self.buffer.push(34u8);
        append_bytes(&mut self.buffer, value);
        self.buffer.push(34u8);
        self.buffer.push(10u8);
        self.touched = true;
        proof {
            assert(self.buffer@ == old(self).buffer@ + quoted_line(name@, value@));
        }
        Ok(())
    }

    /// Appends a raw directive line: the directive text and a newline.
    ///
    /// On an embedded terminator the builder is left exactly as it was and
    /// the conversion failure is reported.
    pub fn define(&mut self, value: &[u8]) -> (r: Result<(), Error>)
        ensures
            has_nul(value@) ==> r == Err::<(), Error>(Error::StringConversionFailure)
                && *final(self) == *old(self),
            !has_nul(value@) ==> r == Ok::<(), Error>(())
                && final(self).buffer_bytes() == old(self).buffer_bytes()
                    + directive_line(value@)
                && final(self).written(),
    {
        if contains_nul(value) {
            return Err(Error::StringConversionFailure);
        }
        append_bytes(&mut self.buffer, value);
        self.buffer.push(10u8);
        self.touched = true;
        proof {
            assert(self.buffer@ == old(self).buffer@ + directive_line(value@));
        }
        Ok(())
    }

    /// Finishes building the INI configuration, consuming the builder.
    ///
    /// Yields the accumulated buffer, or nothing at all when no operation
    /// was ever performed — the host's null result.
    pub fn finish(self) -> (r: Option<Vec<u8>>)
        ensures
            r is Some <==> self.written(),
            r matches Some(v) ==> v@ == self.buffer_bytes(),
    {
        if self.touched {
            Some(self.buffer)
        } else {
            None
        }
    }
}

/// Appends every byte of `src` to `dst`.
fn append_bytes(dst: &mut Vec<u8>, src: &[u8])
    ensures
        final(dst)@ == old(dst)@ + src@,
{
    let mut i: usize = 0;
    let n = src.len();
    while i < n
        invariant
            0 <= i <= n,
            n == src@.len(),
            dst@ == old(dst)@ + src@.take(i as int),
        decreases n - i,
    {
        dst.push(src[i]);
        i += 1;
    }
    proof {
        assert(dst@ == old(dst)@ + src@);
    }
}

} // verus!
