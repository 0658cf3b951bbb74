use vstd::prelude::*;
use device_query::Keycode;

verus! {

/// device_query's key identifier, carried through as it is.
#[verifier::external_type_specification]
#[verifier::external_body]
pub struct ExKeycode(Keycode);

/// Whether device_query's key table has a key of this name.
pub uninterp spec fn is_key_name(name: Seq<char>) -> bool;

/// A configured hotkey: its name and the key code looked up for that name.
/// Only `lookup_hotkey` makes one, so the code always belongs to the name.
#[derive(Debug)]
pub struct Hotkey {
    name: String,
    code: Keycode,
}

impl Hotkey {
    pub closed spec fn spec_name(&self) -> Seq<char> {
        self.name@
    }

    /// The name the hotkey was configured with.
    pub fn name(&self) -> (r: &str)
        ensures
            r@ == self.spec_name(),
    {
        self.name.as_str()
    }

    /// The key code looked up for the name.
    pub fn code(&self) -> Keycode {
        self.code
    }
}

/// Relies on device_query's `Keycode::from_str`, which looks the name up in
/// its key table and fails on any name that is not there; "F10" is in the
/// table. The hotkey keeps the name beside the code found for it.
#[verifier::external_body]
pub(crate) fn lookup_hotkey(name: &str) -> (r: Option<Hotkey>)
    ensures
        r is Some <==> is_key_name(name@),
        name@ == "F10"@ ==> r is Some,
        r matches Some(h) ==> h.spec_name() == name@,
{
    match name.parse::<Keycode>() {
        Ok(code) => Some(Hotkey { name: name.to_string(), code }),
        Err(_) => None,
    }
}

} // verus!
