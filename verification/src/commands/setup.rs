//! `odx setup`: build odx from the project and install it into the project's
//! environment.
use vstd::prelude::*;
use crate::paths::path_join;
use crate::text::{cat, owned};

verus! {

/// The name of the odx executable.
pub open spec fn binary_name_of(windows: bool) -> Seq<char> {
    if windows {
        "odx.exe"@
    } else {
        "odx"@
    }
}

pub fn binary_name(windows: bool) -> (r: &'static str)
    ensures
        r@ == binary_name_of(windows),
{
    if windows {
        "odx.exe"
    } else {
        "odx"
    }
}

/// Building needs the `cli` directory and Cargo.
pub fn build_check(cli_dir_exists: bool, cargo_found: bool) -> (r: Result<(), String>)
    ensures
        r is Ok <==> cli_dir_exists && cargo_found,
        !cli_dir_exists ==> (r matches Err(e) && e@ == "CLI directory not found. Make sure you're in the project root."@),
        cli_dir_exists && !cargo_found ==> (r matches Err(e) && e@ == "Cargo not found. Please install Rust: https://rustup.rs/"@),
{
    if !cli_dir_exists {
        return Err(owned("CLI directory not found. Make sure you're in the project root."));
    }
    if !cargo_found {
        return Err(owned("Cargo not found. Please install Rust: https://rustup.rs/"));
    }
    Ok(())
}

/// Where the built executable is copied from and to: from `cli/target/release` into
/// the environment's program directory, both of which must exist.
pub fn install_paths(
    project_root: &str,
    windows: bool,
    binary_exists: bool,
    venv_bin_exists: bool,
) -> (r: Result<(String, String), String>)
    ensures
        r is Ok <==> binary_exists && venv_bin_exists,
        r matches Ok(p) ==> p.0@ == path_join(path_join(project_root@, "cli/target/release"@), binary_name_of(windows))
            && p.1@ == path_join(crate::utils::venv_bin_dir_spec(project_root@, windows), binary_name_of(windows)),
        !binary_exists ==> (r matches Err(e) && e@ == "Compiled binary not found: "@ + path_join(
            path_join(project_root@, "cli/target/release"@),
            binary_name_of(windows),
        ) + ". Please build the CLI first."@),
        binary_exists && !venv_bin_exists ==> (r matches Err(e) && e@ == "Virtual environment not found. Run Python setup first."@),
{
    let release = crate::paths::join(project_root, "cli/target/release");
    let name = binary_name(windows);
    let source = crate::paths::join(release.as_str(), name);
    if !binary_exists {
        let mut m = cat("Compiled binary not found: ", source.as_str());
        m.append(". Please build the CLI first.");
        return Err(m);
    }
    if !venv_bin_exists {
        return Err(owned("Virtual environment not found. Run Python setup first."));
    }
    let bin = crate::utils::venv_bin_dir(project_root, windows);
    let target = crate::paths::join(bin.as_str(), name);
    Ok((source, target))
}

} // verus!
