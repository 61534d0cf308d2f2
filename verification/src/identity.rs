//! Work-item identities and scratch-file naming.
//!
//! Every request gets a fresh random identity; its input file is named
//! `{identity}.fb2` and the converter's output file `{identity}.{format}`.
//! The identity's shape (36 bytes, hex digits and hyphens) guarantees that
//! the names are plain file names, and distinct identities give disjoint
//! file names — the only mutual-exclusion mechanism between concurrent
//! requests sharing one scratch directory.

use vstd::prelude::*;
use crate::bytes::{append_bytes, clone_bytes};
use crate::format::{format_allowed, lower_bytes};

verus! {

/// A byte that is a lowercase hexadecimal digit.
pub open spec fn is_hex_lower(b: u8) -> bool {
    (48u8 <= b && b <= 57u8) || (97u8 <= b && b <= 102u8)
}

/// The hyphen positions of a hyphenated identity.
pub open spec fn is_hyphen_position(i: int) -> bool {
    i == 8 || i == 13 || i == 18 || i == 23
}

/// Shape of a work-item identity: the 36-byte textual form of a hyphenated
/// UUID — lowercase hex digits with hyphens at positions 8, 13, 18 and 23.
pub open spec fn valid_identity(id: Seq<u8>) -> bool {
    &&& id.len() == 36
    &&& forall|i: int|
        0 <= i < id.len() ==> if is_hyphen_position(i) {
            id[i] == 45u8
        } else {
            is_hex_lower(#[trigger] id[i])
        }
}

/// The bytes of the input-file suffix `.fb2`.
pub open spec fn fb2_suffix() -> Seq<u8> {
    seq![46u8, 102u8, 98u8, 50u8]
}

/// Input-file name of an identity: `{identity}.fb2`.
pub open spec fn input_name_of(id: Seq<u8>) -> Seq<u8> {
    id + fb2_suffix()
}

/// Output-file name of an identity and a target format, written as the
/// caller wrote it: `{identity}.{format}`.
pub open spec fn output_name_of(id: Seq<u8>, format: Seq<u8>) -> Seq<u8> {
    id + seq![46u8] + format
}

/// Relies on `uuid::Uuid::new_v4` and the `Display` (hyphenated, lowercase)
/// encoding: the textual form of a fresh UUID is exactly 36 bytes, lowercase
/// hexadecimal digits with hyphens at positions 8, 13, 18 and 23. Nothing
/// more is assumed: the value is random, so no two calls are related.
#[verifier::external_body]
fn fresh_identity() -> (id: Vec<u8>)
    ensures
        valid_identity(id@),
{
    uuid::Uuid::new_v4().to_string().into_bytes()
}

/// One request's working files in the scratch directory: a fresh identity,
/// the target format exactly as the caller wrote it, and the input-file name
/// derived from the identity.
pub struct WorkItem {
    pub id: Vec<u8>,
    pub format_raw: Vec<u8>,
    pub input_name: Vec<u8>,
}

/// Mathematical view of a work item.
pub struct WorkItemView {
    pub id: Seq<u8>,
    pub format_raw: Seq<u8>,
    pub input_name: Seq<u8>,
}

impl View for WorkItem {
    type V = WorkItemView;

    open spec fn view(&self) -> WorkItemView {
        WorkItemView { id: self.id@, format_raw: self.format_raw@, input_name: self.input_name@ }
    }
}

impl WorkItemView {
    /// Well-formedness: the identity has the generated shape and the input
    /// name is derived from it.
    pub open spec fn wf(self) -> bool {
        &&& valid_identity(self.id)
        &&& self.input_name == input_name_of(self.id)
    }
}

/// Starts one request's work: generates a fresh identity and derives the
/// input-file name `{identity}.fb2` for it. The target format is carried
/// along untouched, validated only later — after the body upload — as the
/// pipeline prescribes.
pub fn start_work(format_raw: Vec<u8>) -> (w: WorkItem)
    ensures
        w@.wf(),
        w@.format_raw == format_raw@,
{
    let id = fresh_identity();
    let mut input_name = clone_bytes(&id);
    let suffix = make_fb2_suffix();
    append_bytes(&mut input_name, &suffix);
    WorkItem { id, format_raw, input_name }
}

/// Builds the bytes of `.fb2`.
fn make_fb2_suffix() -> (r: Vec<u8>)
    ensures
        r@ == fb2_suffix(),
{
    let mut r: Vec<u8> = Vec::new();
    r.push(46u8);
    r.push(102u8);
    r.push(98u8);
    r.push(50u8);
    proof {
        assert(r@ =~= fb2_suffix());
    }
    r
}

/// Computes the converter's output-file name `{identity}.{format}` for a
/// work item.
pub fn output_file_name(w: &WorkItem) -> (r: Vec<u8>)
    ensures
        r@ == output_name_of(w@.id, w@.format_raw),
{
    let mut r = clone_bytes(&w.id);
    r.push(46u8);
    append_bytes(&mut r, &w.format_raw);
    proof {
        assert(r@ =~= output_name_of(w@.id, w@.format_raw));
    }
    r
}

/// Two equal-length identities followed by equal suffixes are equal.
proof fn lemma_concat_cancels(a: Seq<u8>, b: Seq<u8>, s: Seq<u8>, t: Seq<u8>)
    requires
        a.len() == b.len(),
        a + s == b + t,
    ensures
        a == b,
        s == t,
{
    assert(a =~= (a + s).subrange(0, a.len() as int));
    assert(b =~= (b + t).subrange(0, b.len() as int));
    assert(s =~= (a + s).subrange(a.len() as int, (a + s).len() as int));
    assert(t =~= (b + t).subrange(b.len() as int, (b + t).len() as int));
}

/// Law: work items with distinct identities never share a scratch file.
/// For any two well-formed identities and any two allowed target formats,
/// the four derived file names collide only where the identities are equal
/// — concurrent requests with distinct identities address disjoint files.
pub proof fn lemma_distinct_identities_disjoint_files(
    a: Seq<u8>,
    b: Seq<u8>,
    fa: Seq<u8>,
    fb: Seq<u8>,
)
    requires
        valid_identity(a),
        valid_identity(b),
        a != b,
        format_allowed(fa),
        format_allowed(fb),
    ensures
        input_name_of(a) != input_name_of(b),
        output_name_of(a, fa) != output_name_of(b, fb),
        input_name_of(a) != output_name_of(b, fb),
        output_name_of(a, fa) != input_name_of(b),
{
    assert(fa.len() == 4 && fb.len() == 4) by {
        assert(lower_bytes(fa).len() == fa.len());
        assert(lower_bytes(fb).len() == fb.len());
    }
    if input_name_of(a) == input_name_of(b) {
        lemma_concat_cancels(a, b, fb2_suffix(), fb2_suffix());
    }
    if output_name_of(a, fa) == output_name_of(b, fb) {
        lemma_concat_cancels(a + seq![46u8], b + seq![46u8], fa, fb);
        lemma_concat_cancels(a, b, seq![46u8], seq![46u8]);
    }
    if input_name_of(a) == output_name_of(b, fb) {
        assert(input_name_of(a).len() == 40);
        assert(output_name_of(b, fb).len() == 41);
    }
    if output_name_of(a, fa) == input_name_of(b) {
        assert(output_name_of(a, fa).len() == 41);
        assert(input_name_of(b).len() == 40);
    }
}

/// Law: one work item's own input and output files are distinct — the
/// converter never reads and writes the same name. The input suffix `.fb2`
/// is four bytes, while an allowed format makes the output suffix five.
pub proof fn lemma_input_output_distinct(id: Seq<u8>, f: Seq<u8>)
    requires
        valid_identity(id),
        format_allowed(f),
    ensures
        input_name_of(id) != output_name_of(id, f),
{
    assert(f.len() == 4) by {
        assert(lower_bytes(f).len() == f.len());
    }
    assert(input_name_of(id).len() == 40);
    assert(output_name_of(id, f).len() == 41);
}

} // verus!
