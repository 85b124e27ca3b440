//! The namespace tags used in address derivation.
//!
//! Each record family derives its storage address under its own fixed tag,
//! so records of different kinds can never collide.  The tags are exposed as
//! functions rather than compiled-in references so that the derivation code
//! and its callers speak of one explicit value.

use vstd::prelude::*;

verus! {

/// The tag under which `Clerk` record addresses are derived: `"clerk"`.
pub open spec fn spec_clerk_tag() -> Seq<u8> {
    seq![0x63u8, 0x6cu8, 0x65u8, 0x72u8, 0x6bu8]
}

/// The tag under which `Document` record addresses are derived: `"document"`.
pub open spec fn spec_document_tag() -> Seq<u8> {
    seq![0x64u8, 0x6fu8, 0x63u8, 0x75u8, 0x6du8, 0x65u8, 0x6eu8, 0x74u8]
}

/// The tag under which staged copies of a clerk are derived during a
/// two-phase capacity migration: `"staged"`.
pub open spec fn spec_staged_tag() -> Seq<u8> {
    seq![0x73u8, 0x74u8, 0x61u8, 0x67u8, 0x65u8, 0x64u8]
}

/// The clerk namespace tag as bytes.
pub fn clerk_tag() -> (r: Vec<u8>)
    ensures
        r@ == spec_clerk_tag(),
{
    let mut r: Vec<u8> = Vec::new();
    r.push(0x63u8);
    r.push(0x6cu8);
    r.push(0x65u8);
    r.push(0x72u8);
    r.push(0x6bu8);
    proof {
        assert(r@ =~= spec_clerk_tag());
    }
    r
}

/// The document namespace tag as bytes.
pub fn document_tag() -> (r: Vec<u8>)
    ensures
        r@ == spec_document_tag(),
{
    let mut r: Vec<u8> = Vec::new();
    r.push(0x64u8);
    r.push(0x6fu8);
    r.push(0x63u8);
    r.push(0x75u8);
    r.push(0x6du8);
    r.push(0x65u8);
    r.push(0x6eu8);
    r.push(0x74u8);
    proof {
        assert(r@ =~= spec_document_tag());
    }
    r
}

/// The staged-copy namespace tag as bytes.
pub fn staged_tag() -> (r: Vec<u8>)
    ensures
        r@ == spec_staged_tag(),
{
    let mut r: Vec<u8> = Vec::new();
    r.push(0x73u8);
    r.push(0x74u8);
    r.push(0x61u8);
    r.push(0x67u8);
    r.push(0x65u8);
    r.push(0x64u8);
    proof {
        assert(r@ =~= spec_staged_tag());
    }
    r
}

} // verus!
