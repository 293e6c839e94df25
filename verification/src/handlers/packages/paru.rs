//! How packages of the user repository are listed, installed and removed.
//!
//! `paru` builds and installs such packages; `pacman` lists and removes them,
//! as it does every installed package.

use vstd::prelude::*;

use crate::handlers::packages::pacman::command;
use crate::text::texts;

verus! {

/// The command line that lists the packages of the user repository that
/// were installed on request. No such package is a dependency of a package
/// of the repositories, so these are all that count.
pub fn explicit_packages_command() -> (line: Vec<String>)
    ensures
        texts(line@) == seq!["pacman"@, "--query"@, "--quiet"@, "--explicit"@, "--foreign"@],
{
    let mut line: Vec<String> = Vec::new();
    line.push(String::from_str("pacman"));
    line.push(String::from_str("--query"));
    line.push(String::from_str("--quiet"));
    line.push(String::from_str("--explicit"));
    line.push(String::from_str("--foreign"));
    assert(texts(line@) =~= seq!["pacman"@, "--query"@, "--quiet"@, "--explicit"@, "--foreign"@]);
    line
}

/// The command line that installs packages of the user repository, as the
/// user `aur`, and asks nothing.
pub fn install_command(names: &Vec<String>) -> (line: Vec<String>)
    ensures
        texts(line@) == seq![
            "sudo"@,
            "-u"@,
            "aur"@,
            "paru"@,
            "--sync"@,
            "--refresh"@,
            "--aur"@,
            "--noconfirm"@,
        ] + texts(names@),
{
    let mut words: Vec<String> = Vec::new();
    words.push(String::from_str("sudo"));
    words.push(String::from_str("-u"));
    words.push(String::from_str("aur"));
    words.push(String::from_str("paru"));
    words.push(String::from_str("--sync"));
    words.push(String::from_str("--refresh"));
    words.push(String::from_str("--aur"));
    words.push(String::from_str("--noconfirm"));
    assert(texts(words@) =~= seq![
        "sudo"@,
        "-u"@,
        "aur"@,
        "paru"@,
        "--sync"@,
        "--refresh"@,
        "--aur"@,
        "--noconfirm"@,
    ]);
    command(words, names)
}

/// The command line that removes packages of the user repository, and asks nothing.
pub fn uninstall_command(names: &Vec<String>) -> (line: Vec<String>)
    ensures
        texts(line@) == seq!["pacman"@, "--remove"@, "--nosave"@, "--noconfirm"@] + texts(names@),
{
    crate::handlers::packages::pacman::uninstall_command(names)
}

} // verus!
