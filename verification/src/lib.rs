//! Safe, verified core of a wrapper around a host hypervisor interface.
//!
//! The host framework is reached over a C ABI: every operation is one call
//! that takes raw integers and returns a single numeric code.  This crate
//! holds the wrapper's own logic — translating typed values to the raw ABI
//! encoding, mapping return codes to a closed error enum, and tracking the
//! lifetime ordering of the handles — while the unverified shell issues the
//! actual calls and hands each return code back in.

use vstd::prelude::*;
use vstd::string::StringExecFns;

pub mod arm64;
pub mod flags;
mod vcpu;
mod vm;
pub mod vmx;
pub mod x86;

pub use flags::Memory;
pub use flags::VmOptions;
pub use vcpu::Vcpu;
pub use vm::Vm;

verus! {

/// Type of a page-aligned virtual address in the current task, as the
/// ABI carries it.
pub type UVAddr = u64;

/// Type of a page-aligned address in the guest physical address space.
pub type GPAddr = u64;

/// The return code reported by a framework call that succeeded.
pub const HV_SUCCESS: u32 = 0;
/// The operation was unsuccessful.
pub const HV_ERROR: u32 = 0xfae9_4001;
/// The owning resource was busy.
pub const HV_BUSY: u32 = 0xfae9_4002;
/// The call had an invalid argument.
pub const HV_BAD_ARGUMENT: u32 = 0xfae9_4003;
/// The host had no resources available to complete the request.
pub const HV_NO_RESOURCES: u32 = 0xfae9_4005;
/// No VM or vCPU was available.
pub const HV_NO_DEVICE: u32 = 0xfae9_4006;
/// The operation is not supported by the hypervisor.
pub const HV_UNSUPPORTED: u32 = 0xfae9_400f;

/// An error reported by the framework, one variant for each documented
/// numeric return code and a catch-all for the rest.
#[derive(Debug, Copy, Clone, PartialEq, Eq, Structural)]
pub enum Error {
    Unsuccessful,
    Busy,
    BadArgument,
    NoResources,
    NoDevice,
    Unsupported,
    /// A return code outside the documented set, preserved verbatim.
    Unknown(u32),
}

/// Holds exactly when `code` is one of the documented error codes,
/// which the translation maps to a dedicated variant.
pub open spec fn is_documented_error_code(code: u32) -> bool {
    ||| code == HV_ERROR
    ||| code == HV_BUSY
    ||| code == HV_BAD_ARGUMENT
    ||| code == HV_NO_RESOURCES
    ||| code == HV_NO_DEVICE
    ||| code == HV_UNSUPPORTED
}

impl Error {
    /// The variant that the numeric code `code` translates to.
    pub open spec fn spec_from_code(code: u32) -> Error {
        if code == HV_ERROR {
            Error::Unsuccessful
        } else if code == HV_BUSY {
            Error::Busy
        } else if code == HV_BAD_ARGUMENT {
            Error::BadArgument
        } else if code == HV_NO_RESOURCES {
            Error::NoResources
        } else if code == HV_NO_DEVICE {
            Error::NoDevice
        } else if code == HV_UNSUPPORTED {
            Error::Unsupported
        } else {
            Error::Unknown(code)
        }
    }

    /// The numeric code this error stands for.
    pub open spec fn spec_code(self) -> u32 {
        match self {
            Error::Unsuccessful => HV_ERROR,
            Error::Busy => HV_BUSY,
            Error::BadArgument => HV_BAD_ARGUMENT,
            Error::NoResources => HV_NO_RESOURCES,
            Error::NoDevice => HV_NO_DEVICE,
            Error::Unsupported => HV_UNSUPPORTED,
            Error::Unknown(code) => code,
        }
    }

    /// An `Unknown` value only ever carries a code outside the documented
    /// set: the translation never hides a documented code in the catch-all.
    pub open spec fn wf(self) -> bool {
        self matches Error::Unknown(code) ==> !is_documented_error_code(code)
    }

    /// Translates a numeric return code to its error variant.
    ///
    /// The mapping is total: every documented code yields its dedicated
    /// variant, and every other code falls back to `Unknown` carrying the
    /// original code.
    pub fn from_code(code: u32) -> (r: Error)
        ensures
            r == Error::spec_from_code(code),
            r.wf(),
            !is_documented_error_code(code) ==> r == Error::Unknown(code),
    {
        if code == HV_ERROR {
            Error::Unsuccessful
        } else if code == HV_BUSY {
            Error::Busy
        } else if code == HV_BAD_ARGUMENT {
            Error::BadArgument
        } else if code == HV_NO_RESOURCES {
            Error::NoResources
        } else if code == HV_NO_DEVICE {
            Error::NoDevice
        } else if code == HV_UNSUPPORTED {
            Error::Unsupported
        } else {
            Error::Unknown(code)
        }
    }

    /// The numeric return code this error stands for.
    pub fn code(&self) -> (c: u32)
        ensures
            c == self.spec_code(),
    {
        match self {
            Error::Unsuccessful => HV_ERROR,
            Error::Busy => HV_BUSY,
            Error::BadArgument => HV_BAD_ARGUMENT,
            Error::NoResources => HV_NO_RESOURCES,
            Error::NoDevice => HV_NO_DEVICE,
            Error::Unsupported => HV_UNSUPPORTED,
            Error::Unknown(code) => *code,
        }
    }
}

/// Law: translating a code and reading the code back returns the original
/// code, for every `u32` — documented, unrecognized, or the success code.
pub proof fn lemma_error_code_preserved(code: u32)
    ensures
        Error::spec_from_code(code).spec_code() == code,
{
}

/// Law: reading an error's code and translating it back returns the same
/// error, for every error the translation can produce.
pub proof fn lemma_error_translation_stable(e: Error)
    requires
        e.wf(),
    ensures
        Error::spec_from_code(e.spec_code()) == e,
{
}

/// The character for the decimal digit `d`.
pub open spec fn digit_char(d: nat) -> char
    recommends
        d < 10,
{
    if d == 0 {
        '0'
    } else if d == 1 {
        '1'
    } else if d == 2 {
        '2'
    } else if d == 3 {
        '3'
    } else if d == 4 {
        '4'
    } else if d == 5 {
        '5'
    } else if d == 6 {
        '6'
    } else if d == 7 {
        '7'
    } else if d == 8 {
        '8'
    } else {
        '9'
    }
}

/// The decimal digits of `n`, most significant first, with no leading
/// zero except for `n == 0` itself.
pub open spec fn spec_dec_digits(n: nat) -> Seq<char>
    decreases n,
{
    if n < 10 {
        seq![digit_char(n)]
    } else {
        spec_dec_digits(n / 10).push(digit_char(n % 10))
    }
}

/// The decimal rendering of `code` read back as a signed 32-bit value,
/// as the diagnostic message prints an unrecognized return code.
pub open spec fn spec_signed_dec(code: u32) -> Seq<char> {
    if code < 0x8000_0000 {
        spec_dec_digits(code as nat)
    } else {
        seq!['-'] + spec_dec_digits((0x1_0000_0000 - code) as nat)
    }
}

impl Error {
    /// The diagnostic message for this error.
    pub open spec fn spec_message(self) -> Seq<char> {
        match self {
            Error::Unsuccessful => "The operation was unsuccessful"@,
            Error::Busy => "The operation was unsuccessful because the owning resource was busy"@,
            Error::BadArgument => "The operation was unsuccessful because the function call had an invalid argument"@,
            Error::NoResources => "The operation was unsuccessful because the host had no resources available to complete the request"@,
            Error::NoDevice => "The operation was unsuccessful because no VM or vCPU was available"@,
            Error::Unsupported => "The operation requested isn't supported by the hypervisor"@,
            Error::Unknown(code) => "Error code: "@ + spec_signed_dec(code),
        }
    }

    /// Renders the diagnostic message for this error.  An unrecognized
    /// code is printed in decimal, read back as a signed 32-bit value.
    pub fn message(&self) -> (r: String)
        ensures
            r@ == self.spec_message(),
    {
        match self {
            Error::Unsuccessful => String::from_str("The operation was unsuccessful"),
            Error::Busy => String::from_str(
                "The operation was unsuccessful because the owning resource was busy",
            ),
            Error::BadArgument => String::from_str(
                "The operation was unsuccessful because the function call had an invalid argument",
            ),
            Error::NoResources => String::from_str(
                "The operation was unsuccessful because the host had no resources available to complete the request",
            ),
            Error::NoDevice => String::from_str(
                "The operation was unsuccessful because no VM or vCPU was available",
            ),
            Error::Unsupported => String::from_str(
                "The operation requested isn't supported by the hypervisor",
            ),
            Error::Unknown(code) => {
                let mut s = String::from_str("Error code: ");
                if *code < 0x8000_0000 {
                    push_dec(&mut s, *code);
                } else {
                    proof {
                        reveal_strlit("-");
                    }
                    s.append("-");
                    assert(s@ =~= "Error code: "@ + seq!['-']);
                    let m: u64 = 0x1_0000_0000u64 - (*code as u64);
                    push_dec(&mut s, m as u32);
                    assert(s@ =~= "Error code: "@ + (seq!['-'] + spec_dec_digits(
                        (0x1_0000_0000 - *code) as nat,
                    )));
                }
                s
            },
        }
    }
}

/// Appends the single decimal digit `d` to `s`.
fn push_digit(s: &mut String, d: u32)
    requires
        d < 10,
    ensures
        final(s)@ == old(s)@ + seq![digit_char(d as nat)],
{
    match d {
        0 => {
            proof {
                reveal_strlit("0");
            }
            s.append("0");
            assert(s@ =~= old(s)@ + seq!['0']);
        },
        1 => {
            proof {
                reveal_strlit("1");
            }
            s.append("1");
            assert(s@ =~= old(s)@ + seq!['1']);
        },
        2 => {
            proof {
                reveal_strlit("2");
            }
            s.append("2");
            assert(s@ =~= old(s)@ + seq!['2']);
        },
        3 => {
            proof {
                reveal_strlit("3");
            }
            s.append("3");
            assert(s@ =~= old(s)@ + seq!['3']);
        },
        4 => {
            proof {
                reveal_strlit("4");
            }
            s.append("4");
            assert(s@ =~= old(s)@ + seq!['4']);
        },
        5 => {
            proof {
                reveal_strlit("5");
            }
            s.append("5");
            assert(s@ =~= old(s)@ + seq!['5']);
        },
        6 => {
            proof {
                reveal_strlit("6");
            }
            s.append("6");
            assert(s@ =~= old(s)@ + seq!['6']);
        },
        7 => {
            proof {
                reveal_strlit("7");
            }
            s.append("7");
            assert(s@ =~= old(s)@ + seq!['7']);
        },
        8 => {
            proof {
                reveal_strlit("8");
            }
            s.append("8");
            assert(s@ =~= old(s)@ + seq!['8']);
        },
        _ => {
            proof {
                reveal_strlit("9");
            }
            s.append("9");
            assert(s@ =~= old(s)@ + seq!['9']);
        },
    }
}

/// Appends the decimal digits of `n` to `s`, most significant first.
fn push_dec(s: &mut String, n: u32)
    ensures
        final(s)@ == old(s)@ + spec_dec_digits(n as nat),
    decreases n,
{
    if n < 10 {
        push_digit(s, n);
    } else {
        push_dec(s, n / 10);
        push_digit(s, n % 10);
        assert(s@ =~= old(s)@ + spec_dec_digits(n as nat));
    }
}

/// The decision every wrapper call ends with: a zero return code is
/// success, and any other code is surfaced as the translated error.
pub fn check_return(code: u32) -> (r: Result<(), Error>)
    ensures
        r is Ok <==> code == HV_SUCCESS,
        r matches Err(e) ==> e == Error::spec_from_code(code) && e.wf(),
{
    if code == HV_SUCCESS {
        Ok(())
    } else {
        Err(Error::from_code(code))
    }
}

} // verus!
