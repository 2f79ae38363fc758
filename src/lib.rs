//! Password obfuscation for remote-desktop authentication: the vendor
//! variant of the DES block cipher (key bits taken least significant first),
//! the password-length policy around it, and its hexadecimal storage form.

pub mod codec;
pub mod config;
pub mod des;
pub mod error;
pub mod processor;
pub mod tables;

pub use config::{VncDesConfig, VncDesConfigBuilder, TIGHTVNC_DEFAULT_KEY};
pub use des::VncDesEngine;
pub use error::{Result, VncDesError};
pub use processor::{PasswordProcessor, VncDesProcessor};

use vstd::prelude::*;
use vstd::string::*;

verus! {

/// The library's version.
pub const VERSION: &'static str = "0.1.0";

/// The library's name.
pub const NAME: &'static str = "vnc_des";

/// The library's version.
pub fn version() -> (r: &'static str)
    ensures
        r@ == VERSION@,
{
    VERSION
}

/// The library's name.
pub fn name() -> (r: &'static str)
    ensures
        r@ == NAME@,
{
    NAME
}

/// The name and the version, as `name vVERSION`.
pub fn info() -> (r: String)
    ensures
        r@ == NAME@ + " v"@ + VERSION@,
{
    let mut s = NAME.to_owned();
    s.append(" v");
    s.append(VERSION);
    s
}

} // verus!
