use vstd::prelude::*;
use vstd::string::*;

verus! {

/// The managed class raised for invalid construction parameters.
pub open spec fn illegal_argument_class() -> Seq<char> {
    "java/lang/IllegalArgumentException"@
}

/// The managed class raised for handle misuse.
pub open spec fn illegal_state_class() -> Seq<char> {
    "java/lang/IllegalStateException"@
}

/// The managed class raised for codec and marshalling faults.
pub open spec fn opus_class() -> Seq<char> {
    "com/plasmoverse/opus/OpusException"@
}

/// A message that names what was attempted, then the failure that stopped it.
pub open spec fn with_cause_spec(context: Seq<char>, cause: Seq<char>) -> Seq<char> {
    context + ": "@ + cause
}

/// An error to be raised on the managed side: the class to instantiate and
/// its message.
#[derive(Debug)]
pub struct JavaException {
    pub class: String,
    pub message: String,
}

impl JavaException {
    pub open spec fn is_illegal_argument(&self) -> bool {
        self.class@ == illegal_argument_class()
    }

    pub open spec fn is_illegal_state(&self) -> bool {
        self.class@ == illegal_state_class()
    }

    pub open spec fn is_opus(&self) -> bool {
        self.class@ == opus_class()
    }

    pub fn new_illegal_argument(message: String) -> (r: JavaException)
        ensures
            r.is_illegal_argument(),
            r.message == message,
    {
        JavaException { class: String::from_str("java/lang/IllegalArgumentException"), message }
    }

    pub fn new_illegal_state(message: String) -> (r: JavaException)
        ensures
            r.is_illegal_state(),
            r.message == message,
    {
        JavaException { class: String::from_str("java/lang/IllegalStateException"), message }
    }

    pub fn new_opus(message: String) -> (r: JavaException)
        ensures
            r.is_opus(),
            r.message == message,
    {
        JavaException { class: String::from_str("com/plasmoverse/opus/OpusException"), message }
    }

    /// The class name to raise, in the managed runtime's slash notation.
    pub fn class(&self) -> (r: &str)
        ensures
            r@ == self.class@,
    {
        self.class.as_str()
    }

    /// The message to raise the class with.
    pub fn message(&self) -> (r: &str)
        ensures
            r@ == self.message@,
    {
        self.message.as_str()
    }
}

/// Joins what was attempted and why it failed into one message.
pub fn with_cause(context: &str, cause: &str) -> (r: String)
    ensures
        r@ == with_cause_spec(context@, cause@),
{
    let mut r = String::from_str(context);
    r.append(": ");
    r.append(cause);
    r
}

/// A codec fault: the message names what was attempted and the fault.
pub fn opus_failure(context: &str, cause: &str) -> (r: JavaException)
    ensures
        r.is_opus(),
        r.message@ == with_cause_spec(context@, cause@),
{
    JavaException::new_opus(with_cause(context, cause))
}

/// Turns the failure of a codec call into a codec error whose message
/// names what was attempted and the reported fault.
pub trait ErrIntoException<T>: Sized {
    fn err_into_opus_exception(self, message: String) -> Result<T, JavaException>;
}

impl<T> ErrIntoException<T> for Result<T, String> {
    fn err_into_opus_exception(self, message: String) -> (r: Result<T, JavaException>)
        ensures
            self is Ok <==> r is Ok,
            self matches Ok(v) ==> r == Ok::<T, JavaException>(v),
            self matches Err(cause) ==> r matches Err(e) && e.is_opus() && e.message@
                == with_cause_spec(message@, cause@),
    {
        match self {
            Ok(v) => Ok(v),
            Err(cause) => Err(opus_failure(message.as_str(), cause.as_str())),
        }
    }
}

} // verus!
