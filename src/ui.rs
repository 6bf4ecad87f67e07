//! Which directory the web interface is served from in each mode of the server.
use vstd::prelude::*;

verus! {

pub const MAIN_UI_WWW_DIR: &'static str = "/var/www/html/main";

pub const SETUP_UI_WWW_DIR: &'static str = "/var/www/html/setup";

pub const DIAG_UI_WWW_DIR: &'static str = "/var/www/html/diagnostic";

pub const INSTALL_UI_WWW_DIR: &'static str = "/var/www/html/install";

/// The mode the server runs in, which decides the interface it serves.
#[derive(Clone, Copy, Debug, PartialEq, Eq, Structural)]
pub enum UiMode {
    Setup,
    Diag,
    Install,
    Main,
}

pub open spec fn www_dir_of(mode: UiMode) -> Seq<char> {
    match mode {
        UiMode::Setup => "/var/www/html/setup"@,
        UiMode::Diag => "/var/www/html/diagnostic"@,
        UiMode::Install => "/var/www/html/install"@,
        UiMode::Main => "/var/www/html/main"@,
    }
}

impl UiMode {
    /// The directory whose files the interface of this mode is served from.
    pub fn www_dir(&self) -> (r: &'static str)
        ensures
            r@ == www_dir_of(*self),
    {
        match self {
            UiMode::Setup => SETUP_UI_WWW_DIR,
            UiMode::Diag => DIAG_UI_WWW_DIR,
            UiMode::Install => INSTALL_UI_WWW_DIR,
            UiMode::Main => MAIN_UI_WWW_DIR,
        }
    }
}

} // verus!
