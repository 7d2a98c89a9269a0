use vstd::prelude::*;
use vstd::string::StringExecFns;

verus! {

/// The character of one decimal digit.
pub open spec fn spec_decimal_digit(d: nat) -> Seq<char> {
    if d == 0 {
        "0"@
    } else if d == 1 {
        "1"@
    } else if d == 2 {
        "2"@
    } else if d == 3 {
        "3"@
    } else if d == 4 {
        "4"@
    } else if d == 5 {
        "5"@
    } else if d == 6 {
        "6"@
    } else if d == 7 {
        "7"@
    } else if d == 8 {
        "8"@
    } else {
        "9"@
    }
}

/// The decimal digit characters of `n`, most significant first.
pub open spec fn spec_decimal_digits(n: nat) -> Seq<char>
    decreases n,
{
    if n < 10 {
        spec_decimal_digit(n)
    } else {
        spec_decimal_digits(n / 10) + spec_decimal_digit(n % 10)
    }
}

/// The decimal rendering of `n`, sign included.
pub open spec fn spec_decimal(n: int) -> Seq<char> {
    if n < 0 {
        "-"@ + spec_decimal_digits((-n) as nat)
    } else {
        spec_decimal_digits(n as nat)
    }
}

/// The character of one decimal digit.
fn decimal_digit_str(d: u32) -> (r: &'static str)
    requires
        d < 10,
    ensures
        r@ == spec_decimal_digit(d as nat),
{
    if d == 0 {
        "0"
    } else if d == 1 {
        "1"
    } else if d == 2 {
        "2"
    } else if d == 3 {
        "3"
    } else if d == 4 {
        "4"
    } else if d == 5 {
        "5"
    } else if d == 6 {
        "6"
    } else if d == 7 {
        "7"
    } else if d == 8 {
        "8"
    } else {
        "9"
    }
}

/// The decimal digit characters of `n`, most significant first.
fn decimal_digits_string(n: u32) -> (r: String)
    ensures
        r@ == spec_decimal_digits(n as nat),
    decreases n,
{
    if n < 10 {
        String::from_str(decimal_digit_str(n))
    } else {
        let mut r = decimal_digits_string(n / 10);
        let last = decimal_digit_str(n % 10);
        r.append(last);
        r
    }
}

/// The decimal rendering of a result code, sign included.
fn decimal_string(code: i32) -> (r: String)
    ensures
        r@ == spec_decimal(code as int),
{
    if code < 0 {
        let magnitude: u32 = (-(code as i64)) as u32;
        let mut r = String::from_str("-");
        let digits = decimal_digits_string(magnitude);
        r.append(digits.as_str());
        r
    } else {
        decimal_digits_string(code as u32)
    }
}

/// Native result code for a mount call: zero is success, each negative
/// value names a distinct mount-time failure.
pub type DokanMainResult = i32;

/// The mount succeeded.
pub const DOKAN_SUCCESS: DokanMainResult = 0;
/// Generic mount error.
pub const DOKAN_ERROR: DokanMainResult = -1;
/// Bad drive letter.
pub const DOKAN_DRIVE_LETTER_ERROR: DokanMainResult = -2;
/// The driver could not be installed.
pub const DOKAN_DRIVER_INSTALL_ERROR: DokanMainResult = -3;
/// The driver reported that something is wrong.
pub const DOKAN_START_ERROR: DokanMainResult = -4;
/// A drive letter or mount point could not be assigned; it is probably
/// already used by another volume.
pub const DOKAN_MOUNT_ERROR: DokanMainResult = -5;
/// The mount point is invalid.
pub const DOKAN_MOUNT_POINT_ERROR: DokanMainResult = -6;
/// An incompatible version was requested.
pub const DOKAN_VERSION_ERROR: DokanMainResult = -7;

/// The result of mounting a filesystem, carrying the native mount result
/// code unchanged.
#[derive(Debug, Copy, Clone, Eq, PartialEq, Hash, Structural)]
pub struct MainResult(pub DokanMainResult);

impl MainResult {
    /// Returns true exactly when this is the success code.
    pub fn is_success(self) -> (r: bool)
        ensures
            r <==> self.0 == DOKAN_SUCCESS,
    {
        self.0 == DOKAN_SUCCESS
    }

    /// The native result code carried by this value.
    pub fn code(self) -> (r: DokanMainResult)
        ensures
            r == self.0,
    {
        self.0
    }

    /// Wraps a native mount result code without renumbering it.
    pub fn from_code(code: DokanMainResult) -> (r: MainResult)
        ensures
            r.0 == code,
    {
        MainResult(code)
    }

    /// Splits a mount result into success and failure: success becomes
    /// `Ok(())`, every other code becomes `Err` carrying this value
    /// unchanged.
    pub fn into_result(self) -> (r: Result<(), MainResult>)
        ensures
            r is Ok <==> self.0 == DOKAN_SUCCESS,
            r matches Err(e) ==> e == self,
    {
        if self.is_success() {
            Ok(())
        } else {
            Err(self)
        }
    }

    /// The text that describes each mount result code.
    pub open spec fn spec_message(self) -> Seq<char> {
        if self.0 == DOKAN_SUCCESS {
            "mount successful"@
        } else if self.0 == DOKAN_ERROR {
            "mount failed, mount error"@
        } else if self.0 == DOKAN_DRIVE_LETTER_ERROR {
            "mount failed, invalid drive letter"@
        } else if self.0 == DOKAN_DRIVER_INSTALL_ERROR {
            "mount failed, failed to install driver"@
        } else if self.0 == DOKAN_START_ERROR {
            "mount failed, driver detected an issue"@
        } else if self.0 == DOKAN_MOUNT_ERROR {
            "mount failed, cannot assign drive letter or mount; it is likely already in use"@
        } else if self.0 == DOKAN_MOUNT_POINT_ERROR {
            "mount failed, the mount point is invalid"@
        } else if self.0 == DOKAN_VERSION_ERROR {
            "mount failed, requested an incompatible version"@
        } else {
            "Dokany Error Code "@ + spec_decimal(self.0 as int)
        }
    }

    /// A short description of this mount result, one per known code; an
    /// unrecognized code is rendered into the text.
    pub fn message(self) -> (r: String)
        ensures
            r@ == self.spec_message(),
    {
        if self.0 == DOKAN_SUCCESS {
            String::from_str("mount successful")
        } else if self.0 == DOKAN_ERROR {
            String::from_str("mount failed, mount error")
        } else if self.0 == DOKAN_DRIVE_LETTER_ERROR {
            String::from_str("mount failed, invalid drive letter")
        } else if self.0 == DOKAN_DRIVER_INSTALL_ERROR {
            String::from_str("mount failed, failed to install driver")
        } else if self.0 == DOKAN_START_ERROR {
            String::from_str("mount failed, driver detected an issue")
        } else if self.0 == DOKAN_MOUNT_ERROR {
            String::from_str(
                "mount failed, cannot assign drive letter or mount; it is likely already in use",
            )
        } else if self.0 == DOKAN_MOUNT_POINT_ERROR {
            String::from_str("mount failed, the mount point is invalid")
        } else if self.0 == DOKAN_VERSION_ERROR {
            String::from_str("mount failed, requested an incompatible version")
        } else {
            let mut r = String::from_str("Dokany Error Code ");
            let code = decimal_string(self.0);
            r.append(code.as_str());
            r
        }
    }
}

impl Default for MainResult {
    /// The success result.
    fn default() -> (r: MainResult)
        ensures
            r.0 == DOKAN_SUCCESS,
    {
        MainResult(DOKAN_SUCCESS)
    }
}

/// Wrapping a native code and reading it back is lossless, and distinct
/// native codes stay distinct typed values: the mapping between the native
/// result space and `MainResult` is one-to-one.
pub proof fn lemma_main_result_lossless(a: DokanMainResult, b: DokanMainResult)
    ensures
        MainResult(a).0 == a,
        MainResult(a) == MainResult(b) <==> a == b,
{
}

} // verus!
