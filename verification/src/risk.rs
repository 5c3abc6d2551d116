//! Risk classification of shell commands.
//!
//! A command is lowercased and then matched against fixed patterns, tier by
//! tier from the most dangerous down; the first tier with a match wins.

use vstd::prelude::*;
use crate::models::RiskLevel;
use crate::text::{contains, has_prefix, has_substring, starts_with, to_chars};

verus! {

/// The lowercase form that `str::to_lowercase` gives a text.
pub uninterp spec fn lowercase_of(s: Seq<char>) -> Seq<char>;

/// `str::to_lowercase` maps a text to its lowercase form; the result depends on
/// the text alone.
pub assume_specification[ str::to_lowercase ](s: &str) -> (r: String)
    ensures
        r@ == lowercase_of(s@),
;

/// A lowercased command that may destroy data or devices.
pub open spec fn is_critical(l: Seq<char>) -> bool {
    ||| has_substring(l, "rm -rf"@)
    ||| has_substring(l, "sudo rm"@)
    ||| has_substring(l, "mkfs"@)
    ||| has_substring(l, "dd if="@)
    ||| has_substring(l, "fdisk"@)
    ||| has_substring(l, "format"@)
    ||| has_substring(l, "del /f"@)
    ||| has_substring(l, "> /dev/"@)
    ||| has_substring(l, "shred"@)
    ||| has_substring(l, "wipefs"@)
    ||| has_substring(l, "parted"@)
    ||| has_substring(l, "cfdisk"@)
}

/// A lowercased command that touches the system: run as root, a downloaded
/// script piped into a shell, services, firewall, permissions, accounts.
pub open spec fn is_high(l: Seq<char>) -> bool {
    ||| has_prefix(l, "sudo"@)
    ||| ((has_substring(l, "curl"@) || has_substring(l, "wget"@)) && has_substring(l, "| sh"@))
    ||| has_substring(l, "systemctl"@)
    ||| has_substring(l, "service"@)
    ||| has_substring(l, "iptables"@)
    ||| has_substring(l, "ufw"@)
    ||| has_substring(l, "chmod +x"@)
    ||| has_substring(l, "chown"@)
    ||| has_substring(l, "passwd"@)
    ||| has_substring(l, "useradd"@)
    ||| has_substring(l, "userdel"@)
    ||| has_substring(l, "groupadd"@)
}

/// `word` opens the command, or occurs in a command that redirects with `>`.
pub open spec fn leads_or_redirects(l: Seq<char>, word: Seq<char>) -> bool {
    has_prefix(l, word) || (has_substring(l, word) && has_substring(l, ">"@))
}

/// A lowercased command that changes files: copy, move, create, write,
/// remove, or install a package from a remote registry.
pub open spec fn is_moderate(l: Seq<char>) -> bool {
    ||| leads_or_redirects(l, "cp"@)
    ||| leads_or_redirects(l, "mv"@)
    ||| leads_or_redirects(l, "mkdir"@)
    ||| leads_or_redirects(l, "touch"@)
    ||| leads_or_redirects(l, "echo"@)
    ||| leads_or_redirects(l, "rm"@)
    ||| leads_or_redirects(l, "apt install"@)
    ||| leads_or_redirects(l, "apt-get install"@)
    ||| leads_or_redirects(l, "pip install"@)
    ||| leads_or_redirects(l, "npm install"@)
    ||| leads_or_redirects(l, "cargo install"@)
    ||| leads_or_redirects(l, "brew install"@)
}

/// The tier of a lowercased command: the first of critical, high and moderate
/// that matches, and safe when none does.
pub open spec fn risk_of(l: Seq<char>) -> RiskLevel {
    if is_critical(l) {
        RiskLevel::Critical
    } else if is_high(l) {
        RiskLevel::High
    } else if is_moderate(l) {
        RiskLevel::Moderate
    } else {
        RiskLevel::Safe
    }
}

fn has(l: &Vec<char>, word: &str) -> (b: bool)
    ensures
        b == has_substring(l@, word@),
{
    let w = to_chars(word);
    contains(l, &w)
}

fn leads(l: &Vec<char>, word: &str) -> (b: bool)
    ensures
        b == has_prefix(l@, word@),
{
    let w = to_chars(word);
    starts_with(l, &w)
}

fn leads_or_redirected(l: &Vec<char>, word: &str, redirects: bool) -> (b: bool)
    requires
        redirects == has_substring(l@, ">"@),
    ensures
        b == leads_or_redirects(l@, word@),
{
    leads(l, word) || (redirects && has(l, word))
}

fn critical(l: &Vec<char>) -> (b: bool)
    ensures
        b == is_critical(l@),
{
    has(l, "rm -rf") || has(l, "sudo rm") || has(l, "mkfs") || has(l, "dd if=") || has(l, "fdisk")
        || has(l, "format") || has(l, "del /f") || has(l, "> /dev/") || has(l, "shred") || has(
        l,
        "wipefs",
    ) || has(l, "parted") || has(l, "cfdisk")
}

fn high(l: &Vec<char>) -> (b: bool)
    ensures
        b == is_high(l@),
{
    leads(l, "sudo") || ((has(l, "curl") || has(l, "wget")) && has(l, "| sh")) || has(
        l,
        "systemctl",
    ) || has(l, "service") || has(l, "iptables") || has(l, "ufw") || has(l, "chmod +x") || has(
        l,
        "chown",
    ) || has(l, "passwd") || has(l, "useradd") || has(l, "userdel") || has(l, "groupadd")
}

fn moderate(l: &Vec<char>) -> (b: bool)
    ensures
        b == is_moderate(l@),
{
    let r = has(l, ">");
    leads_or_redirected(l, "cp", r) || leads_or_redirected(l, "mv", r) || leads_or_redirected(
        l,
        "mkdir",
        r,
    ) || leads_or_redirected(l, "touch", r) || leads_or_redirected(l, "echo", r)
        || leads_or_redirected(l, "rm", r) || leads_or_redirected(l, "apt install", r)
        || leads_or_redirected(l, "apt-get install", r) || leads_or_redirected(
        l,
        "pip install",
        r,
    ) || leads_or_redirected(l, "npm install", r) || leads_or_redirected(l, "cargo install", r)
        || leads_or_redirected(l, "brew install", r)
}

/// The tier of a command that is already in lowercase.
pub fn classify_lowercase(lowered: &str) -> (r: RiskLevel)
    ensures
        r == risk_of(lowered@),
{
    let l = to_chars(lowered);
    if critical(&l) {
        RiskLevel::Critical
    } else if high(&l) {
        RiskLevel::High
    } else if moderate(&l) {
        RiskLevel::Moderate
    } else {
        RiskLevel::Safe
    }
}

/// The tier of a command, whatever its letter case. Every text has exactly
/// one tier, and equal texts have equal tiers.
pub fn classify(command: &str) -> (r: RiskLevel)
    ensures
        r == risk_of(lowercase_of(command@)),
{
    let lowered = command.to_lowercase();
    classify_lowercase(lowered.as_str())
}

} // verus!
