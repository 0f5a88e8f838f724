use vstd::prelude::*;

verus! {

/// Why the platform could not answer or act.
pub enum PlatformError {
    QueryFailed,
    Unsupported,
    OutOfRange,
}

/// Decimal digits of `n`, most significant first.
pub open spec fn decimal(n: nat) -> Seq<char>
    decreases n,
{
    if n < 10 {
        seq![digit_char(n)]
    } else {
        decimal(n / 10).push(digit_char(n % 10))
    }
}

pub open spec fn digit_char(d: nat) -> char {
    (('0' as u8) + (d as u8)) as char
}

/// The display name of desktop `n`: the word "Desktop", a space, and its number.
pub open spec fn desktop_label(n: u32) -> Seq<char> {
    seq!['D', 'e', 's', 'k', 't', 'o', 'p', ' '] + decimal(n as nat)
}

/// Relies on `ToString::to_string` for `u32`, which goes through `Display`: the
/// number in decimal, without sign or padding.
#[verifier::external_body]
fn decimal_string(n: u32) -> (r: String)
    ensures
        r@ == decimal(n as nat),
{
    n.to_string()
}

/// The display name of desktop `desktop`.
pub fn desktop_name(desktop: u32) -> (r: String)
    ensures
        r@ == desktop_label(desktop),
{
    let mut label = String::new();
    label.append("Desktop ");
    let digits = decimal_string(desktop);
    label.append(digits.as_str());
    proof {
        reveal_strlit("Desktop ");
    }
    label
}

/// The number of desktops that the placeholder platforms report.
pub const SINGLE_DESKTOP: u32 = 1;

/// Switches to `desktop` where it is one of the `count` desktops that exist.
fn switch_within(desktop: u32, count: u32) -> (r: Result<(), PlatformError>)
    ensures
        desktop < count ==> r is Ok,
        desktop >= count ==> r == Err::<(), PlatformError>(PlatformError::OutOfRange),
{
    if desktop < count {
        Ok(())
    } else {
        Err(PlatformError::OutOfRange)
    }
}

/// Queries and switches the host's virtual desktops.
pub trait DesktopManager {
    fn get_current_desktop(&self) -> Result<u32, PlatformError>;

    fn get_desktop_count(&self) -> Result<u32, PlatformError>;

    fn switch_to_desktop(&self, desktop: u32) -> Result<(), PlatformError>;

    fn get_desktop_name(&self, desktop: u32) -> Result<String, PlatformError>;
}

/// The macOS desktop manager; it reports a single desktop until Spaces are queried.
pub struct MacOSDesktopManager;

impl DesktopManager for MacOSDesktopManager {
    fn get_current_desktop(&self) -> (r: Result<u32, PlatformError>)
        ensures
            r == Ok::<u32, PlatformError>(0),
    {
        Ok(0)
    }

    fn get_desktop_count(&self) -> (r: Result<u32, PlatformError>)
        ensures
            r == Ok::<u32, PlatformError>(SINGLE_DESKTOP),
    {
        Ok(SINGLE_DESKTOP)
    }

    fn switch_to_desktop(&self, desktop: u32) -> (r: Result<(), PlatformError>)
        ensures
            desktop < SINGLE_DESKTOP ==> r is Ok,
            desktop >= SINGLE_DESKTOP ==> r == Err::<(), PlatformError>(PlatformError::OutOfRange),
    {
        switch_within(desktop, SINGLE_DESKTOP)
    }

    fn get_desktop_name(&self, desktop: u32) -> (r: Result<String, PlatformError>)
        ensures
            r is Ok && r->Ok_0@ == desktop_label(desktop),
    {
        Ok(desktop_name(desktop))
    }
}

/// The Linux desktop manager; it reports a single desktop until the window manager is queried.
pub struct LinuxDesktopManager;

impl DesktopManager for LinuxDesktopManager {
    fn get_current_desktop(&self) -> (r: Result<u32, PlatformError>)
        ensures
            r == Ok::<u32, PlatformError>(0),
    {
        Ok(0)
    }

    fn get_desktop_count(&self) -> (r: Result<u32, PlatformError>)
        ensures
            r == Ok::<u32, PlatformError>(SINGLE_DESKTOP),
    {
        Ok(SINGLE_DESKTOP)
    }

    fn switch_to_desktop(&self, desktop: u32) -> (r: Result<(), PlatformError>)
        ensures
            desktop < SINGLE_DESKTOP ==> r is Ok,
            desktop >= SINGLE_DESKTOP ==> r == Err::<(), PlatformError>(PlatformError::OutOfRange),
    {
        switch_within(desktop, SINGLE_DESKTOP)
    }

    fn get_desktop_name(&self, desktop: u32) -> (r: Result<String, PlatformError>)
        ensures
            r is Ok && r->Ok_0@ == desktop_label(desktop),
    {
        Ok(desktop_name(desktop))
    }
}

} // verus!
