//! Platforms and the emulator command that each one is launched with.
use vstd::prelude::*;

verus! {

use crate::text::{occurs_at, starts_with_text};

/// The emulated systems, told apart by the directory a ROM lies in.
#[derive(PartialEq, Eq, Structural, Clone, Copy, Debug)]
pub enum Platform {
    Nes,
    Sms,
    Snes,
}

/// The platform of a ROM path, from its directory prefix.
pub open spec fn platform_of(path: Seq<char>) -> Option<Platform> {
    if occurs_at(path, "roms/nes"@, 0) {
        Some(Platform::Nes)
    } else if occurs_at(path, "roms/sms"@, 0) {
        Some(Platform::Sms)
    } else if occurs_at(path, "roms/smc"@, 0) {
        Some(Platform::Snes)
    } else {
        None
    }
}

pub open spec fn program_of(p: Platform) -> Seq<char> {
    match p {
        Platform::Nes => "bin/nestopia"@,
        Platform::Sms => "bin/osmose"@,
        Platform::Snes => "bin/snes9x"@,
    }
}

pub open spec fn args_of(p: Platform, path: Seq<char>) -> Seq<Seq<char>> {
    match p {
        Platform::Nes => seq!["-f"@, path],
        Platform::Sms => seq!["-fs"@, "-nn2x"@, "-joy"@, path],
        Platform::Snes => seq![path],
    }
}

pub open spec fn env_of(p: Platform) -> Seq<(Seq<char>, Seq<char>)> {
    match p {
        Platform::Nes => seq![("MESA_GL_VERSION_OVERRIDE"@, "3.2"@)],
        _ => Seq::empty(),
    }
}

/// A process to start: program, arguments, and environment variables to set.
pub struct Launch {
    pub program: String,
    pub args: Vec<String>,
    pub env: Vec<(String, String)>,
}

impl Launch {
    /// This is the command that starts the emulator of `p` on `path`.
    pub open spec fn runs(&self, p: Platform, path: Seq<char>) -> bool {
        &&& self.program@ == program_of(p)
        &&& self.args@.map_values(|a: String| a@) == args_of(p, path)
        &&& self.env@.map_values(|e: (String, String)| (e.0@, e.1@)) == env_of(p)
    }
}

/// The platform of a ROM path.
pub fn classify(path: &str) -> (r: Option<Platform>)
    ensures
        r == platform_of(path@),
{
    if starts_with_text(path, "roms/nes") {
        Some(Platform::Nes)
    } else if starts_with_text(path, "roms/sms") {
        Some(Platform::Sms)
    } else if starts_with_text(path, "roms/smc") {
        Some(Platform::Snes)
    } else {
        None
    }
}

/// The command that starts the emulator of `p` on the ROM at `path`.
pub fn launch_command(p: Platform, path: &str) -> (r: Launch)
    ensures
        r.runs(p, path@),
{
    let r = match p {
        Platform::Nes => Launch {
            program: String::from_str("bin/nestopia"),
            args: vec![String::from_str("-f"), path.to_owned()],
            env: vec![(String::from_str("MESA_GL_VERSION_OVERRIDE"), String::from_str("3.2"))],
        },
        Platform::Sms => Launch {
            program: String::from_str("bin/osmose"),
            args: vec![
                String::from_str("-fs"),
                String::from_str("-nn2x"),
                String::from_str("-joy"),
                path.to_owned(),
            ],
            env: Vec::new(),
        },
        Platform::Snes => Launch {
            program: String::from_str("bin/snes9x"),
            args: vec![path.to_owned()],
            env: Vec::new(),
        },
    };
    assert(r.args@.map_values(|a: String| a@) =~= args_of(p, path@));
    assert(r.env@.map_values(|e: (String, String)| (e.0@, e.1@)) =~= env_of(p));
    r
}

} // verus!
