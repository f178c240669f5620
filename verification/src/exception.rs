//! The exception bridge: turning extension-side error values into the host
//! exception call they ask for.
//!
//! A descriptor is consumed exactly once by its throw operation, which
//! decides the host call: a pre-attached object is raised directly, and
//! otherwise the target class is validated and the host's raise-by-class
//! primitive is asked for, with the message always passed behind the fixed
//! substitution token so the host never interprets caller data as a format
//! string.  The embedder performs the returned [`ThrowAction`]; everything
//! up to that decision is verified.

use vstd::prelude::*;

use crate::Error;
use crate::contains_nul;
use crate::has_nul;

verus! {

/// Class flag bit marking an interface.
pub const CLASS_FLAG_INTERFACE: u32 = 1;

/// Class flag bit marking an abstract class.
pub const CLASS_FLAG_ABSTRACT: u32 = 2;

/// Identifier the host gives its base exception class.
pub const BASE_EXCEPTION_CLASS: u64 = 0;

/// A reference to a class the host has registered: its identity and its
/// flags, as the host reports them.
#[derive(Clone, Copy, Debug, PartialEq, Eq, Structural)]
pub struct ClassEntry {
    /// The host's identifier for the class.
    pub id: u64,
    /// The host's flag bits for the class.
    pub flags: u32,
}

/// Whether a class may be thrown at all: neither an interface nor an
/// abstract class is a valid throw target.
pub open spec fn valid_throw_target(c: ClassEntry) -> bool {
    c.flags & (CLASS_FLAG_INTERFACE | CLASS_FLAG_ABSTRACT) == 0
}

/// Decides whether a class may be thrown at.
pub fn is_valid_throw_target(c: &ClassEntry) -> (r: bool)
    ensures
        r == valid_throw_target(*c),
{
    c.flags & (CLASS_FLAG_INTERFACE | CLASS_FLAG_ABSTRACT) == 0
}

impl ClassEntry {
    /// The host's base exception class: concrete, so always throwable.
    pub fn exception() -> (c: ClassEntry)
        ensures
            c == (ClassEntry { id: BASE_EXCEPTION_CLASS, flags: 0 }),
            valid_throw_target(c),
    {
        let c = ClassEntry { id: BASE_EXCEPTION_CLASS, flags: 0 };
        proof {
            assert(0u32 & (CLASS_FLAG_INTERFACE | CLASS_FLAG_ABSTRACT) == 0) by (bit_vector);
        }
        c
    }
}

/// A class the extension has registered with the host.  Extension authors
/// implement this for their own class types; the bridge only needs the
/// class entry the host handed back at registration time.
pub trait RegisteredClass {
    /// The class entry this type was registered under.
    spec fn spec_class_entry() -> ClassEntry;

    /// Returns the class entry this type was registered under.
    fn class_entry() -> (c: ClassEntry)
        ensures
            c == Self::spec_class_entry(),
    ;
}

/// The host's base exception class, as a registered class type: what a
/// descriptor targets when its creator names no class of its own.
pub struct BaseExceptionClass;

impl RegisteredClass for BaseExceptionClass {
    open spec fn spec_class_entry() -> ClassEntry {
        ClassEntry { id: BASE_EXCEPTION_CLASS, flags: 0 }
    }

    fn class_entry() -> (c: ClassEntry) {
        ClassEntry { id: BASE_EXCEPTION_CLASS, flags: 0 }
    }
}

/// A handle to a host value slot, such as an instantiated exception
/// object.  The host owns the storage; the bridge only carries the handle
/// through.
#[derive(Clone, Copy, Debug, PartialEq, Eq, Structural)]
pub struct Zval {
    /// The embedder's handle for the host value.
    pub handle: u64,
}

/// The host call a throw operation asks for.
///
/// The embedder performs the call; the bridge guarantees which one is
/// asked for and with what arguments.
#[derive(Debug, PartialEq, Eq)]
pub enum ThrowAction {
    /// Invoke the host's raise-by-class primitive with the class, the
    /// code, the fixed substitution token as the format string, and the
    /// message as unformatted data.
    RaiseByClass { class: ClassEntry, code: i32, format: Vec<u8>, message: Vec<u8> },
    /// Invoke the host's raise-object primitive on an already-built
    /// exception object.
    RaiseObject { object: Zval },
}

/// The fixed two-byte substitution token, `%s`: the only format string
/// ever handed to the host's raise-by-class primitive.
pub open spec fn substitution_token() -> Seq<u8> {
    seq![37u8, 115u8]
}

/// What a raise-by-class throw of `(class, code, message)` must produce:
/// exactly the raise-by-class call, with the fixed substitution token and
/// the message bytes unchanged.
pub open spec fn raises_by_class(
    r: Result<ThrowAction, Error>,
    class: ClassEntry,
    code: i32,
    message: Seq<u8>,
) -> bool {
    &&& !valid_throw_target(class) ==> r == Result::<ThrowAction, Error>::Err(
        Error::InvalidExceptionTarget { flags: class.flags },
    )
    &&& valid_throw_target(class) && has_nul(message) ==> r == Result::<
        ThrowAction,
        Error,
    >::Err(Error::StringConversionFailure)
    &&& valid_throw_target(class) && !has_nul(message) ==> (r matches Result::Ok(a)
        && (a matches ThrowAction::RaiseByClass { class: c, code: k, format, message: m }
        && c == class && k == code && format@ == substitution_token() && m@ == message))
}

/// Throws an exception with a given message and a code of zero.
///
/// Fails with `InvalidExceptionTarget`, before any host call is asked
/// for, when the class is an interface or abstract.
pub fn throw(ex: ClassEntry, message: &[u8]) -> (r: Result<ThrowAction, Error>)
    ensures
        raises_by_class(r, ex, 0i32, message@),
{
    throw_with_code(ex, 0, message)
}

/// Throws an exception with a given message and status code.
///
/// Validates the target class first: an interface or abstract class is
/// rejected with `InvalidExceptionTarget` and no host call is asked for.
/// Otherwise the raise-by-class call is produced, with the message passed
/// as pre-escaped unformatted data behind the fixed substitution token.
pub fn throw_with_code(ex: ClassEntry, code: i32, message: &[u8]) -> (r: Result<
    ThrowAction,
    Error,
>)
    ensures
        raises_by_class(r, ex, code, message@),
{
    if ex.flags & (CLASS_FLAG_INTERFACE | CLASS_FLAG_ABSTRACT) != 0 {
        return Err(Error::InvalidExceptionTarget { flags: ex.flags });
    }
    if contains_nul(message) {
        return Err(Error::StringConversionFailure);
    }
    let mut format: Vec<u8> = Vec::new();
    format.push(37u8);
    format.push(115u8);
    let mut msg: Vec<u8> = Vec::new();
    let mut i: usize = 0;
    let n = message.len();
    while i < n
        invariant
            0 <= i <= n,
            n == message@.len(),
            msg@ == message@.take(i as int),
        decreases n - i,
    {
        msg.push(message[i]);
        i += 1;
    }
    proof {
        assert(msg@ == message@);
        assert(format@ =~= substitution_token());
    }
    Ok(ThrowAction::RaiseByClass { class: ex, code, format, message: msg })
}

/// Throws an already-built exception object: always the raise-object
/// call, never raise-by-class.
pub fn throw_object(object: Zval) -> (r: Result<ThrowAction, Error>)
    ensures
        r == Result::<ThrowAction, Error>::Ok(ThrowAction::RaiseObject { object }),
{
    Ok(ThrowAction::RaiseObject { object })
}

/// An exception descriptor: message, numeric code, target class, and an
/// optional pre-built host object.  Consumed exactly once by
/// [`PhpException::throw`].
#[derive(Debug)]
pub struct PhpException {
    message: Vec<u8>,
    code: i32,
    ex: ClassEntry,
    object: Option<Zval>,
}

impl PhpException {
    /// The staged message bytes.
    pub closed spec fn spec_message(self) -> Seq<u8> {
        self.message@
    }

    /// The staged numeric code.
    pub closed spec fn spec_code(self) -> i32 {
        self.code
    }

    /// The staged target class.
    pub closed spec fn spec_class(self) -> ClassEntry {
        self.ex
    }

    /// The attached host object, if any.
    pub closed spec fn spec_object(self) -> Option<Zval> {
        self.object
    }

    /// Creates a new exception descriptor, with no object attached.
    pub fn new(message: Vec<u8>, code: i32, ex: ClassEntry) -> (e: PhpException)
        ensures
            e.spec_message() == message@,
            e.spec_code() == code,
            e.spec_class() == ex,
            e.spec_object() is None,
    {
        PhpException { message, code, ex, object: None }
    }

    /// Creates a descriptor targeting the host's base exception class,
    /// with a code of zero.
    pub fn default(message: Vec<u8>) -> (e: PhpException)
        ensures
            e.spec_message() == message@,
            e.spec_code() == 0i32,
            e.spec_class() == (ClassEntry { id: BASE_EXCEPTION_CLASS, flags: 0 }),
            e.spec_object() is None,
    {
        Self::new(message, 0, ClassEntry::exception())
    }

    /// Creates a descriptor from a registered class type and a message,
    /// with a code of zero.
    pub fn from_class<T: RegisteredClass>(message: Vec<u8>) -> (e: PhpException)
        ensures
            e.spec_message() == message@,
            e.spec_code() == 0i32,
            e.spec_class() == T::spec_class_entry(),
            e.spec_object() is None,
    {
        Self::new(message, 0, T::class_entry())
    }

    /// Consumes the descriptor and hands back its message bytes, for a
    /// caller that reports the error itself instead of throwing it.
    pub fn into_message(self) -> (m: Vec<u8>)
        ensures
            m@ == self.spec_message(),
    {
        self.message
    }

    /// Attaches or detaches the host object the throw should raise.
    pub fn set_object(&mut self, object: Option<Zval>)
        ensures
            final(self).spec_object() == object,
            final(self).spec_message() == old(self).spec_message(),
            final(self).spec_code() == old(self).spec_code(),
            final(self).spec_class() == old(self).spec_class(),
    {
        self.object = object;
    }

    /// Consumes the descriptor and decides the host call.
    ///
    /// With a pre-attached object this is always the raise-object call,
    /// whatever the message, code and class hold; without one the target
    /// class is validated and the raise-by-class call is produced.
    pub fn throw(self) -> (r: Result<ThrowAction, Error>)
        ensures
            self.spec_object() matches Some(o) ==> r == Result::<ThrowAction, Error>::Ok(
                ThrowAction::RaiseObject { object: o },
            ),
            self.spec_object() is None ==> raises_by_class(
                r,
                self.spec_class(),
                self.spec_code(),
                self.spec_message(),
            ),
    {
        match self.object {
            Some(object) => throw_object(object),
            None => throw_with_code(self.ex, self.code, self.message.as_slice()),
        }
    }
}

} // verus!
