//! The PHP fragments that the indexers recognise, as step programs
//! (see `pattern`). Each comment gives the regular expression (in the
//! syntax of the `regex` crate) whose matches the program reproduces.
use vstd::prelude::*;
use crate::pattern::{all_captures, first_capture, word_flags, Step};

verus! {

/// `->name\(\s*['"]([^'"]+)['"]\s*\)`
pub open spec fn named_route_pattern() -> Seq<Step> {
    seq![Step::Lit("->name("), Step::Ws, Step::Quote, Step::QuotedText, Step::Ws, Step::Lit(")")]
}

pub fn named_route_steps() -> (v: Vec<Step>)
    ensures
        v@ == named_route_pattern(),
{
    vec![Step::Lit("->name("), Step::Ws, Step::Quote, Step::QuotedText, Step::Ws, Step::Lit(")")]
}

/// `Route::\w+\(\s*['"]([^'"]+)['"]`
pub open spec fn route_uri_pattern() -> Seq<Step> {
    seq![Step::Lit("Route::"), Step::Word, Step::Lit("("), Step::Ws, Step::Quote, Step::QuotedText]
}

pub fn route_uri_steps() -> (v: Vec<Step>)
    ensures
        v@ == route_uri_pattern(),
{
    vec![Step::Lit("Route::"), Step::Word, Step::Lit("("), Step::Ws, Step::Quote, Step::QuotedText]
}

/// `['"]([^'"]+)['"]`
pub open spec fn quoted_pattern() -> Seq<Step> {
    seq![Step::Quote, Step::QuotedText]
}

pub fn quoted_steps() -> (v: Vec<Step>)
    ensures
        v@ == quoted_pattern(),
{
    vec![Step::Quote, Step::QuotedText]
}

/// `['"]([^'"]+)['"]\s*=>`
pub open spec fn array_key_pattern() -> Seq<Step> {
    seq![Step::Quote, Step::QuotedText, Step::Ws, Step::Lit("=>")]
}

pub fn array_key_steps() -> (v: Vec<Step>)
    ensures
        v@ == array_key_pattern(),
{
    vec![Step::Quote, Step::QuotedText, Step::Ws, Step::Lit("=>")]
}

/// `view\(\s*['"]([^'"]+)['"]\s*[,\)]`
pub open spec fn view_ref_pattern() -> Seq<Step> {
    seq![Step::Lit("view("), Step::Ws, Step::Quote, Step::QuotedText, Step::Ws, Step::OneOf(",)")]
}

pub fn view_ref_steps() -> (v: Vec<Step>)
    ensures
        v@ == view_ref_pattern(),
{
    vec![Step::Lit("view("), Step::Ws, Step::Quote, Step::QuotedText, Step::Ws, Step::OneOf(",)")]
}

/// `class\s+(\w+Controller)`
pub open spec fn controller_class_pattern() -> Seq<Step> {
    seq![Step::Lit("class"), Step::Ws1, Step::ControllerCap]
}

pub fn controller_class_steps() -> (v: Vec<Step>)
    ensures
        v@ == controller_class_pattern(),
{
    vec![Step::Lit("class"), Step::Ws1, Step::ControllerCap]
}

/// `(?m)^\s*(?:abstract\s+|final\s+)?class\s+(\w+)`
pub open spec fn class_decl_pattern() -> Seq<Step> {
    seq![Step::LineStart, Step::Ws, Step::Modifier, Step::Lit("class"), Step::Ws1, Step::WordCap]
}

pub fn class_decl_steps() -> (v: Vec<Step>)
    ensures
        v@ == class_decl_pattern(),
{
    vec![Step::LineStart, Step::Ws, Step::Modifier, Step::Lit("class"), Step::Ws1, Step::WordCap]
}

/// `(?m)^namespace\s+([\w\\]+)\s*;`
pub open spec fn namespace_decl_pattern() -> Seq<Step> {
    seq![Step::LineStart, Step::Lit("namespace"), Step::Ws1, Step::PathCap, Step::Ws, Step::Lit(";")]
}

pub fn namespace_decl_steps() -> (v: Vec<Step>)
    ensures
        v@ == namespace_decl_pattern(),
{
    vec![Step::LineStart, Step::Lit("namespace"), Step::Ws1, Step::PathCap, Step::Ws, Step::Lit(";")]
}

/// `(?m)^\s*use\s+([\w\\]+);`: an import at the start of a line, indented or not.
pub open spec fn use_decl_pattern() -> Seq<Step> {
    seq![Step::LineStart, Step::Ws, Step::Lit("use"), Step::Ws1, Step::PathCap, Step::Lit(";")]
}

pub fn use_decl_steps() -> (v: Vec<Step>)
    ensures
        v@ == use_decl_pattern(),
{
    vec![Step::LineStart, Step::Ws, Step::Lit("use"), Step::Ws1, Step::PathCap, Step::Lit(";")]
}

/// `\$fillable\s*=\s*\[([^\]]*)\]` (and its lazy twin `([\s\S]*?)\]`).
pub open spec fn fillable_pattern() -> Seq<Step> {
    seq![Step::Lit("$fillable"), Step::Ws, Step::Lit("="), Step::Ws, Step::Lit("["), Step::BracketBody]
}

pub fn fillable_steps() -> (v: Vec<Step>)
    ensures
        v@ == fillable_pattern(),
{
    vec![Step::Lit("$fillable"), Step::Ws, Step::Lit("="), Step::Ws, Step::Lit("["), Step::BracketBody]
}

/// `\$guarded\s*=\s*\[([^\]]*)\]`
pub open spec fn guarded_pattern() -> Seq<Step> {
    seq![Step::Lit("$guarded"), Step::Ws, Step::Lit("="), Step::Ws, Step::Lit("["), Step::BracketBody]
}

pub fn guarded_steps() -> (v: Vec<Step>)
    ensures
        v@ == guarded_pattern(),
{
    vec![Step::Lit("$guarded"), Step::Ws, Step::Lit("="), Step::Ws, Step::Lit("["), Step::BracketBody]
}

/// `\$casts\s*=\s*\[([^\]]*)\]`
pub open spec fn casts_pattern() -> Seq<Step> {
    seq![Step::Lit("$casts"), Step::Ws, Step::Lit("="), Step::Ws, Step::Lit("["), Step::BracketBody]
}

pub fn casts_steps() -> (v: Vec<Step>)
    ensures
        v@ == casts_pattern(),
{
    vec![Step::Lit("$casts"), Step::Ws, Step::Lit("="), Step::Ws, Step::Lit("["), Step::BracketBody]
}

/// The entries of an array assignment: the body captured by the first match
/// of `array`, then every capture of `entry` inside that body.
pub open spec fn array_entries(array: Seq<Step>, entry: Seq<Step>, s: Seq<char>) -> Seq<Seq<char>> {
    match first_capture(array, s, word_flags(s)) {
        Some(body) => all_captures(entry, body, word_flags(body)),
        None => Seq::empty(),
    }
}

} // verus!
