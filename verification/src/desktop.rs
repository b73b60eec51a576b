use vstd::prelude::*;
use vstd::string::*;

use crate::error::Error;
use crate::text::str_eq;

verus! {

/// The Linux desktop environments whose proxy-configuration tooling this
/// program knows how to drive.
#[derive(Clone, Copy, Debug, PartialEq, Eq, Structural)]
pub enum Desktop {
    KDE,
    GNOME,
}

impl Desktop {
    /// Recognizes the desktop from the session's advertised name, as found in
    /// the login environment; any other name is unsupported.
    pub fn from_desktop_name(value: &str) -> (r: Result<Desktop, Error>)
        ensures
            value@ == "KDE"@ ==> r == Ok::<Desktop, Error>(Desktop::KDE),
            value@ == "GNOME"@ ==> r == Ok::<Desktop, Error>(Desktop::GNOME),
            value@ != "KDE"@ && value@ != "GNOME"@ ==> (r matches Err(e) && e matches Error::Config(
                m,
            ) && m@ == "unknown desktop: "@ + value@),
    {
        proof {
            reveal_strlit("KDE");
            reveal_strlit("GNOME");
            assert("KDE"@.len() == 3);
            assert("GNOME"@.len() == 5);
        }
        if str_eq(value, "KDE") {
            Ok(Desktop::KDE)
        } else if str_eq(value, "GNOME") {
            Ok(Desktop::GNOME)
        } else {
            let mut m = String::from_str("unknown desktop: ");
            m.append(value);
            Err(Error::Config(m))
        }
    }
}

} // verus!
