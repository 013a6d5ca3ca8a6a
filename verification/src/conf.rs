//! Configuration handles and the module-loading call.
//!
//! Every operation here is one native call. The functions of this module
//! prepare what the call is given and judge what it returned; the caller
//! makes the call in between, and takes the queued error records where a
//! [`Step`] asks for them.

use vstd::prelude::*;
use libc::{c_int, c_ulong};
use vstd::utf8::encode_utf8;
use crate::cstr::{has_nul, is_first_nul, NulError, NulTerminated};
use crate::error::ErrorStack;

verus! {

/// What remains to be done after a native call has returned.
#[derive(Debug)]
pub enum Step<T> {
    /// The call succeeded, with this value.
    Done(T),
    /// The call signalled failure: the queued error records are to be taken.
    TakeErrors,
}

impl<T> Step<T> {
    /// Whether the error queue has to be read before [`Step::finish`].
    pub fn needs_errors(&self) -> (b: bool)
        ensures
            b == (*self is TakeErrors),
    {
        match self {
            Step::Done(_) => false,
            Step::TakeErrors => true,
        }
    }

    /// The final result. `errors` is what the queue held after a failed
    /// call; after a call that succeeded it is not looked at.
    pub fn finish(self, errors: ErrorStack) -> (res: Result<T, ErrorStack>)
        ensures
            res == finished(self, errors),
    {
        match self {
            Step::Done(value) => Ok(value),
            Step::TakeErrors => Err(errors),
        }
    }
}

/// The result that a step and the records taken for it amount to.
pub open spec fn finished<T>(step: Step<T>, errors: ErrorStack) -> Result<T, ErrorStack> {
    match step {
        Step::Done(value) => Ok(value),
        Step::TakeErrors => Err(errors),
    }
}

/// How a returned code is judged: a positive code is success and is kept as
/// it is; zero and the negative codes are failure.
pub open spec fn code_step(code: c_int) -> Step<c_int> {
    if code > 0 {
        Step::Done(code)
    } else {
        Step::TakeErrors
    }
}

/// How a returned address is judged: null is failure.
pub open spec fn ptr_step(ptr: usize) -> Step<usize> {
    if ptr != 0 {
        Step::Done(ptr)
    } else {
        Step::TakeErrors
    }
}

/// Judges the integer code that a native call returned.
pub fn cvt(code: c_int) -> (step: Step<c_int>)
    ensures
        step == code_step(code),
{
    if code <= 0 {
        Step::TakeErrors
    } else {
        Step::Done(code)
    }
}

/// Judges the address that a native constructor returned.
pub fn cvt_p(ptr: usize) -> (step: Step<usize>)
    ensures
        step == ptr_step(ptr),
{
    if ptr == 0 {
        Step::TakeErrors
    } else {
        Step::Done(ptr)
    }
}

/// A descriptor of the backend that parses configuration files. It is
/// obtained from the native library and owns nothing.
#[derive(Debug)]
pub struct ConfMethod {
    ptr: usize,
}

impl ConfMethod {
    /// The address of the native descriptor.
    pub closed spec fn addr(&self) -> usize {
        self.ptr
    }

    /// Takes the address of a native descriptor as it is. Nothing can be
    /// tested of it here: that it is valid is for the caller to see to.
    pub fn from_ptr(ptr: usize) -> (method: ConfMethod)
        ensures
            method.addr() == ptr,
    {
        ConfMethod { ptr }
    }

    /// The address to hand to native calls.
    pub fn as_ptr(&self) -> (ptr: usize)
        ensures
            ptr == self.addr(),
    {
        self.ptr
    }
}

/// An owned native configuration object. Its address is never null, and the
/// handle cannot be duplicated, so the object is released once at most.
#[derive(Debug)]
pub struct Conf {
    ptr: usize,
}

impl Conf {
    #[verifier::type_invariant]
    spec fn non_null(self) -> bool {
        self.ptr != 0
    }

    /// The address of the native object.
    pub closed spec fn addr(&self) -> usize {
        self.ptr
    }

    /// Turns the address that the native constructor returned into a handle.
    /// A null address is a failed construction and gives no handle.
    pub fn new(raw: usize) -> (step: Step<Conf>)
        ensures
            raw == 0 <==> step is TakeErrors,
            step matches Step::Done(conf) ==> conf.addr() == raw,
    {
        match cvt_p(raw) {
            Step::Done(ptr) => Step::Done(Conf { ptr }),
            Step::TakeErrors => Step::TakeErrors,
        }
    }

    /// The address to hand to native calls. It is not null.
    pub fn as_ptr(&self) -> (ptr: usize)
        ensures
            ptr == self.addr(),
            ptr != 0,
    {
        proof {
            use_type_invariant(self);
        }
        self.ptr
    }

    /// Gives the handle up for the address, which the caller now has to
    /// release with the native free routine.
    pub fn into_ptr(self) -> (ptr: usize)
        ensures
            ptr == self.addr(),
            ptr != 0,
    {
        proof {
            use_type_invariant(&self);
        }
        self.ptr
    }
}

/// The characters of an optional string slice.
pub open spec fn str_chars(arg: Option<&str>) -> Option<Seq<char>> {
    match arg {
        Some(s) => Some(s@),
        None => None,
    }
}

/// The characters of an optional owned string.
pub open spec fn string_chars(arg: Option<String>) -> Option<Seq<char>> {
    match arg {
        Some(s) => Some(s@),
        None => None,
    }
}

/// The bytes that stand for an optional string in a native call: its UTF-8
/// encoding where it is present (the terminator follows them), and a null
/// pointer where it is absent.
pub open spec fn native_bytes(arg: Option<Seq<char>>) -> Option<Seq<u8>> {
    match arg {
        Some(chars) => Some(encode_utf8(chars)),
        None => None,
    }
}

/// Whether an optional string can be handed to a native call: an absent one
/// always can, a present one where its encoding holds no zero byte.
pub open spec fn representable(arg: Option<Seq<char>>) -> bool {
    match arg {
        Some(chars) => !has_nul(encode_utf8(chars)),
        None => true,
    }
}

/// The content of an optional buffer.
pub open spec fn content(buf: Option<NulTerminated>) -> Option<Seq<u8>> {
    match buf {
        Some(c) => Some(c@),
        None => None,
    }
}

/// Readies an optional string for a native call. An absent string stays
/// absent, a present one is encoded and terminated, and one with a zero byte
/// in its encoding is refused with the place of that byte.
pub fn marshal(arg: Option<&str>) -> (res: Result<Option<NulTerminated>, NulError>)
    ensures
        match res {
            Ok(buf) => representable(str_chars(arg)) && content(buf) == native_bytes(
                str_chars(arg),
            ),
            Err(e) => arg matches Some(s) && is_first_nul(encode_utf8(s@), e.position as int),
        },
{
    match arg {
        None => Ok(None),
        Some(s) => match NulTerminated::from_str(s) {
            Ok(buf) => Ok(Some(buf)),
            Err(e) => Err(e),
        },
    }
}

/// The arguments of one call of the native module loader.
#[derive(Debug)]
pub struct LoadRequest {
    /// The configuration file; absent for the library's default file.
    pub filename: Option<NulTerminated>,
    /// The application section; absent for the library's default section.
    pub appname: Option<NulTerminated>,
    /// The flags, widened to the native type and otherwise as they came.
    pub flags: c_ulong,
}

/// The argument that a load request was refused for.
#[derive(Debug, Clone, Copy, PartialEq, Eq, Structural)]
pub enum InvalidInput {
    /// The file name holds a zero byte.
    Filename(NulError),
    /// The application name holds a zero byte, and the file name holds none.
    Appname(NulError),
}

/// Whether `req` is the request that the three arguments stand for.
pub open spec fn is_request_for(
    req: LoadRequest,
    filename: Option<Seq<char>>,
    appname: Option<Seq<char>>,
    flags: u32,
) -> bool {
    &&& content(req.filename) == native_bytes(filename)
    &&& content(req.appname) == native_bytes(appname)
    &&& req.flags as int == flags as int
}

/// Prepares a call of the module loader, or says which argument cannot be
/// handed to it. The file name is looked at first.
pub fn try_modules_load_file(filename: Option<&str>, appname: Option<String>, flags: u32) -> (res:
    Result<LoadRequest, InvalidInput>)
    ensures
        match res {
            Ok(req) => {
                &&& representable(str_chars(filename))
                &&& representable(string_chars(appname))
                &&& is_request_for(req, str_chars(filename), string_chars(appname), flags)
            },
            Err(InvalidInput::Filename(e)) => filename matches Some(s) && is_first_nul(
                encode_utf8(s@),
                e.position as int,
            ),
            Err(InvalidInput::Appname(e)) => {
                &&& representable(str_chars(filename))
                &&& appname matches Some(s) && is_first_nul(encode_utf8(s@), e.position as int)
            },
        },
{
    let filename_buf = match marshal(filename) {
        Ok(buf) => buf,
        Err(e) => {
            return Err(InvalidInput::Filename(e));
        },
    };
    let appname_arg: Option<&str> = match &appname {
        Some(s) => Some(s.as_str()),
        None => None,
    };
    let appname_buf = match marshal(appname_arg) {
        Ok(buf) => buf,
        Err(e) => {
            return Err(InvalidInput::Appname(e));
        },
    };
    Ok(LoadRequest { filename: filename_buf, appname: appname_buf, flags: flags as c_ulong })
}

/// Prepares a call of the module loader from arguments that can be handed to
/// it: present strings are encoded and terminated, absent ones stay absent,
/// and the flags are not touched.
pub fn modules_load_file(filename: Option<&str>, appname: Option<String>, flags: u32) -> (req:
    LoadRequest)
    requires
        representable(str_chars(filename)),
        representable(string_chars(appname)),
    ensures
        is_request_for(req, str_chars(filename), string_chars(appname), flags),
{
    match try_modules_load_file(filename, appname, flags) {
        Ok(req) => req,
        Err(_) => {
            assert(false);
            vstd::pervasive::unreached()
        },
    }
}

impl LoadRequest {
    /// Judges the code that the loader returned for this request, and ends
    /// the request: its buffers live until here, through the one call.
    pub fn complete(self, code: c_int) -> (step: Step<c_int>)
        ensures
            step == code_step(code),
    {
        cvt(code)
    }
}

/// The result of a load whose native call returned `code`, with `errors`
/// queued: the code itself where it is positive, the records otherwise.
pub open spec fn load_result(code: c_int, errors: ErrorStack) -> Result<c_int, ErrorStack> {
    if code > 0 {
        Ok(code)
    } else {
        Err(errors)
    }
}

/// Judging a code and finishing with the queued records gives the code
/// where it is positive, and exactly those records where it is not.
pub proof fn lemma_load_result(code: c_int, errors: ErrorStack)
    ensures
        finished(code_step(code), errors) == load_result(code, errors),
        code > 0 <==> load_result(code, errors) == Ok::<c_int, ErrorStack>(code),
        code <= 0 <==> load_result(code, errors) == Err::<c_int, ErrorStack>(errors),
{
}

/// Loads are judged one by one, each by the code that its own call returned
/// and the records queued for it. Of two loads whose calls both returned a
/// positive code both succeed, each with its own code; and a load whose call
/// returned a positive code succeeds whatever became of the other.
pub proof fn lemma_loads_independent(
    first: c_int,
    first_errors: ErrorStack,
    second: c_int,
    second_errors: ErrorStack,
)
    ensures
        first > 0 && second > 0 ==> {
            &&& load_result(first, first_errors) == Ok::<c_int, ErrorStack>(first)
            &&& load_result(second, second_errors) == Ok::<c_int, ErrorStack>(second)
        },
        first > 0 ==> load_result(first, first_errors) == Ok::<c_int, ErrorStack>(first),
        second > 0 ==> load_result(second, second_errors) == Ok::<c_int, ErrorStack>(second),
{
}

} // verus!
