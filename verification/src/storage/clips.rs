//! The rules of the `clips` table that are not SQL: how a row read back
//! becomes a clip, what an order must be to be applied, where renumbered and
//! imported clips land, and what an update that changed nothing means.
//!
//! The row type carries `use_count`, which never crosses the IPC seam, and it
//! has no `Debug`: nothing can print what the user stored.

use vstd::prelude::*;

use crate::colour::{token_named, Colour};
use crate::commands::wire::Clip;
use crate::error::{ClipError, ErrorView, InvalidReason, invalid_view};
use crate::colour::token_name;
use crate::ids::{hyphenated, is_random_v4, mint_id, parse_uuid_text, uuid_parsed, uuid_text, ClipId};
use crate::redact::{redacted_text, Redacted};
use crate::text::{signed_decimal, signed_decimal_text};

verus! {

/// One row of the `clips` table.
pub struct ClipRow {
    pub id: ClipId,
    pub label: String,
    pub value: String,
    pub colour: Colour,
    /// Backend-owned. Ranks the tray menu and has no other consumer.
    pub use_count: i64,
    /// Dense, `0..N-1`, no gaps.
    pub position: i64,
}

/// A clip's content before the backend has minted an identity for it: the
/// input shape of an import. It borrows, because an import of ten thousand
/// rows should not copy every value to hand them over.
#[derive(Clone, Copy)]
pub struct ClipContent<'a> {
    pub label: &'a str,
    pub value: &'a str,
    pub colour: Colour,
}

/// One entry of the tray ranking: an id and a label, and no `value` field, so
/// a clip's value has no route into a native menu string.
pub struct TrayClip {
    pub id: ClipId,
    pub label: String,
}

impl ClipRow {
    /// How a row reads in a log line: its id, colour, count and position, and
    /// its label and value only as character counts.
    pub fn describe(&self) -> (r: String)
        ensures
            r@ == "ClipRow { id: "@ + hyphenated(self.id) + ", label: "@ + redacted_text(self.label@.len())
                + ", value: "@ + redacted_text(self.value@.len()) + ", colour: "@ + token_name(self.colour)
                + ", use_count: "@ + signed_decimal(self.use_count as int) + ", position: "@
                + signed_decimal(self.position as int) + " }"@,
    {
        let mut text = String::from_str("ClipRow { id: ");
        text.append(uuid_text(self.id).as_str());
        text.append(", label: ");
        text.append(Redacted::of(self.label.as_str()).render().as_str());
        text.append(", value: ");
        text.append(Redacted::of(self.value.as_str()).render().as_str());
        text.append(", colour: ");
        text.append(self.colour.as_str());
        text.append(", use_count: ");
        text.append(signed_decimal_text(self.use_count).as_str());
        text.append(", position: ");
        text.append(signed_decimal_text(self.position).as_str());
        text.append(" }");
        text
    }
}

impl TrayClip {
    /// How a ranking entry reads in a log line: its id, and its label only as
    /// a character count.
    pub fn describe(&self) -> (r: String)
        ensures
            r@ == "TrayClip { id: "@ + hyphenated(self.id) + ", label: "@ + redacted_text(self.label@.len()) + " }"@,
    {
        let mut text = String::from_str("TrayClip { id: ");
        text.append(uuid_text(self.id).as_str());
        text.append(", label: ");
        text.append(Redacted::of(self.label.as_str()).render().as_str());
        text.append(" }");
        text
    }
}

/// An id as the `id` column stores it: lowercase and hyphenated.
pub fn id_text(id: ClipId) -> (r: String)
    ensures
        r@ == hyphenated(id),
{
    uuid_text(id)
}

/// What a stored id column gives: the id, or `storage` for text that is not
/// a UUID. The text itself is not reported: a corrupt column could hold a
/// fragment of anything.
pub open spec fn stored_id(text: Seq<char>) -> Result<ClipId, ErrorView> {
    match uuid_parsed(text) {
        Some(id) => Ok(id),
        None => Err(ErrorView::Storage),
    }
}

/// Parse a stored id.
pub fn parse_id(text: &str) -> (r: Result<ClipId, ClipError>)
    ensures
        match stored_id(text@) {
            Ok(id) => r == Ok::<ClipId, ClipError>(id),
            Err(e) => r matches Err(got) && got@ == e,
        },
{
    match parse_uuid_text(text) {
        Some(id) => Ok(id),
        None => Err(ClipError::Storage),
    }
}

/// The row a `SELECT id, label, value, colour, use_count, position` gives,
/// or `storage` for an id that is not a UUID or a colour this build cannot
/// interpret. Reading a colour back is a parse, exactly like the id's.
pub fn decode_row(
    id: &str,
    label: String,
    value: String,
    colour: &str,
    use_count: i64,
    position: i64,
) -> (r: Result<ClipRow, ClipError>)
    ensures
        match (stored_id(id@), token_named(colour@)) {
            (Ok(i), Some(c)) => r matches Ok(row) && row.id == i && row.label@ == label@
                && row.value@ == value@ && row.colour == c && row.use_count == use_count
                && row.position == position,
            _ => r matches Err(e) && e@ == ErrorView::Storage,
        },
{
    let id = parse_id(id)?;
    let colour = Colour::from_stored(colour)?;
    Ok(ClipRow { id, label, value, colour, use_count, position })
}

/// The tray entry a `SELECT id, label` gives.
pub fn decode_tray_row(id: &str, label: String) -> (r: Result<TrayClip, ClipError>)
    ensures
        match stored_id(id@) {
            Ok(i) => r matches Ok(t) && t.id == i && t.label@ == label@,
            Err(e) => r matches Err(got) && got@ == e,
        },
{
    let id = parse_id(id)?;
    Ok(TrayClip { id, label })
}

impl Clip {
    /// The wire form of a row: its id and content, never its use count or
    /// position.
    pub fn from_row(row: ClipRow) -> (r: Clip)
        ensures
            r.id == row.id,
            r.label@ == row.label@,
            r.value@ == row.value@,
            r.colour == row.colour,
    {
        Clip { id: row.id, label: row.label, value: row.value, colour: row.colour }
    }
}

/// `not_found { clip_id }` for an id, in its stored form.
pub open spec fn not_found_view(id: ClipId) -> ErrorView {
    ErrorView::NotFound { clip_id: hyphenated(id) }
}

/// Build `not_found { clip_id }`.
pub fn not_found(id: ClipId) -> (e: ClipError)
    ensures
        e@ == not_found_view(id),
{
    ClipError::NotFound { clip_id: uuid_text(id) }
}

/// Judge an `UPDATE` or `DELETE` by the number of rows it changed: none is
/// `not_found`, so an unknown id never creates a clip and never succeeds.
pub fn require_changed(changed: usize, id: ClipId) -> (r: Result<(), ClipError>)
    ensures
        changed > 0 ==> r is Ok,
        changed == 0 ==> (r matches Err(e) && e@ == not_found_view(id)),
{
    if changed == 0 {
        return Err(not_found(id));
    }
    Ok(())
}

/// `invalid_input { field: "order", reason: "not_a_permutation" }`. It names
/// the argument and never the ids it was given.
pub fn not_a_permutation() -> (e: ClipError)
    ensures
        e@ == invalid_view("order"@, InvalidReason::NotAPermutation),
{
    ClipError::InvalidInput { field: "order".to_owned(), reason: InvalidReason::NotAPermutation }
}

/// Whether `order` is an exact permutation of `stored` as far as the check
/// goes: the same length, every element stored, and none repeated.
pub open spec fn permutes(stored: Seq<ClipId>, order: Seq<ClipId>) -> bool {
    &&& stored.len() == order.len()
    &&& forall|i: int| 0 <= i < order.len() ==> stored.contains(#[trigger] order[i])
    &&& order.no_duplicates()
}

/// Whether `order` is an exact permutation of `stored`: same length, same
/// members, no duplicates. `stored` comes from the primary key, so it holds
/// no duplicates of its own, and the three checks are then the whole
/// permutation property.
pub fn is_permutation_of(stored: &[ClipId], order: &[ClipId]) -> (r: bool)
    ensures
        r == permutes(stored@, order@),
{
    if stored.len() != order.len() {
        return false;
    }
    let mut i: usize = 0;
    while i < order.len()
        invariant
            i <= order@.len(),
            stored@.len() == order@.len(),
            forall|k: int| 0 <= k < i ==> stored@.contains(#[trigger] order@[k]),
            forall|k: int, l: int| 0 <= k < l < i ==> order@[k] != order@[l],
        decreases order@.len() - i,
    {
        let id = order[i];
        let mut known = false;
        let mut j: usize = 0;
        while j < stored.len()
            invariant
                j <= stored@.len(),
                id == order@[i as int],
                known == (exists|k: int| 0 <= k < j && stored@[k] == id),
            decreases stored@.len() - j,
        {
            if stored[j] == id {
                known = true;
            }
            j = j + 1;
        }
        if !known {
            assert(!stored@.contains(order@[i as int]));
            return false;
        }
        let mut k: usize = 0;
        while k < i
            invariant
                k <= i,
                i < order@.len(),
                id == order@[i as int],
                forall|m: int| 0 <= m < k ==> order@[m] != id,
            decreases i - k,
        {
            if order[k] == id {
                assert(!order@.no_duplicates()) by {
                    assert(order@[k as int] == order@[i as int]);
                }
                return false;
            }
            k = k + 1;
        }
        i = i + 1;
    }
    true
}

/// **An accepted order names every stored clip exactly once**: against a
/// store whose ids are distinct, an order the check accepts holds exactly the
/// stored ids, none twice and none missing.
pub proof fn lemma_accepted_order_is_a_permutation(stored: Seq<ClipId>, order: Seq<ClipId>)
    requires
        stored.no_duplicates(),
        permutes(stored, order),
    ensures
        order.to_set() == stored.to_set(),
        order.to_multiset() == stored.to_multiset(),
{
    stored.unique_seq_to_set();
    order.unique_seq_to_set();
    assert(order.to_set().subset_of(stored.to_set()));
    vstd::set_lib::lemma_subset_equality(order.to_set(), stored.to_set());
    assert(order.to_set() =~= stored.to_set());
    stored.lemma_multiset_has_no_duplicates();
    order.lemma_multiset_has_no_duplicates();
    assert forall|x: ClipId| #[trigger] order.to_multiset().count(x) == stored.to_multiset().count(x) by {
        order.to_multiset_ensures();
        stored.to_multiset_ensures();
        assert(order.contains(x) <==> order.to_set().contains(x));
        assert(stored.contains(x) <==> stored.to_set().contains(x));
    }
    assert(order.to_multiset() =~= stored.to_multiset());
}

/// Apply the check a reorder makes before it writes anything.
pub fn check_order(stored: &[ClipId], order: &[ClipId]) -> (r: Result<(), ClipError>)
    ensures
        r is Ok <==> permutes(stored@, order@),
        r matches Err(e) ==> e@ == invalid_view("order"@, InvalidReason::NotAPermutation),
{
    if !is_permutation_of(stored, order) {
        return Err(not_a_permutation());
    }
    Ok(())
}

/// The offset a renumber shifts every row by before writing its final
/// position: one past the highest occupied position, so the shifted range
/// and the final range are disjoint from the ranges they leave, whatever
/// order the rows are visited in.
pub fn renumber_offset(stored: i64, ordered: usize, max_position: i64) -> (r: Result<i64, ClipError>)
    requires
        max_position < i64::MAX,
    ensures
        stored == ordered ==> r == Ok::<i64, ClipError>((max_position + 1) as i64),
        stored != ordered ==> (r matches Err(e) && e@ == ErrorView::Internal),
{
    if stored < 0 || stored as u64 != ordered as u64 {
        // Not reachable from a validated permutation; renumbering a subset
        // would leave the order sparse.
        return Err(ClipError::Internal);
    }
    Ok(max_position + 1)
}

/// The final positions of a renumber: the `k`-th id of `ordered` at `k`.
pub fn final_positions(ordered: &[ClipId]) -> (r: Vec<(ClipId, i64)>)
    requires
        ordered@.len() <= i64::MAX,
    ensures
        r@.len() == ordered@.len(),
        forall|k: int| 0 <= k < ordered@.len() ==> #[trigger] r@[k] == (ordered@[k], k as i64),
{
    let mut r: Vec<(ClipId, i64)> = Vec::new();
    let mut k: usize = 0;
    while k < ordered.len()
        invariant
            k <= ordered@.len(),
            ordered@.len() <= i64::MAX,
            r@.len() == k,
            forall|m: int| 0 <= m < k ==> #[trigger] r@[m] == (ordered@[m], m as i64),
        decreases ordered@.len() - k,
    {
        r.push((ordered[k], k as i64));
        k = k + 1;
    }
    r
}

/// `base + offset`, saturating at `i64::MAX`.
pub open spec fn saturating_position(base: i64, offset: int) -> i64 {
    if base + offset > i64::MAX { i64::MAX } else { (base + offset) as i64 }
}

/// One row an import appends: a freshly minted id, the clip's content, and
/// the position it takes.
pub struct ImportRow<'a> {
    pub id: ClipId,
    pub content: ClipContent<'a>,
    pub position: i64,
}

/// Whether an import of `count` clips has a position offset for every clip:
/// the last offset, `count - 1`, must fit in an `i64`.
pub open spec fn offsets_fit(count: int) -> bool {
    count <= i64::MAX + 1
}

/// The rows an import appends, in file order, under the ids it minted: the
/// `k`-th clip under the `k`-th id, at `base` plus `k`, saturating, so the
/// user's existing order is untouched.
pub fn rows_with_ids<'a>(base: i64, imported: &[ClipContent<'a>], ids: &[ClipId]) -> (r: Vec<ImportRow<'a>>)
    requires
        ids@.len() == imported@.len(),
        offsets_fit(imported@.len() as int),
    ensures
        r@.len() == imported@.len(),
        forall|k: int| 0 <= k < imported@.len() ==> {
            &&& #[trigger] r@[k].content == imported@[k]
            &&& r@[k].position == saturating_position(base, k)
            &&& r@[k].id == ids@[k]
        },
{
    let count = imported.len();
    let mut rows: Vec<ImportRow<'a>> = Vec::new();
    let mut k: usize = 0;
    while k < count
        invariant
            k <= count,
            count == imported@.len(),
            ids@.len() == count,
            offsets_fit(count as int),
            rows@.len() == k,
            forall|m: int| 0 <= m < k ==> {
                &&& #[trigger] rows@[m].content == imported@[m]
                &&& rows@[m].position == saturating_position(base, m)
                &&& rows@[m].id == ids@[m]
            },
        decreases count - k,
    {
        let offset = k as i64;
        let position = if base > i64::MAX - offset { i64::MAX } else { base + offset };
        rows.push(ImportRow { id: ids[k], content: imported[k], position });
        k = k + 1;
    }
    rows
}

/// The rows an import appends, in file order: each clip under an id minted
/// for it (the file's own id is never read), at `base` plus its offset,
/// saturating, so the user's existing order is untouched. An import with
/// more clips than a position offset can count is `storage`, and so is a
/// random generator that fails part way: no row is planned then. An empty
/// import draws nothing and plans nothing.
pub fn import_rows<'a>(base: i64, imported: &[ClipContent<'a>]) -> (r: Result<Vec<ImportRow<'a>>, ClipError>)
    ensures
        imported@.len() == 0 ==> (r matches Ok(rows) && rows@.len() == 0),
        r matches Ok(rows) ==> rows@.len() == imported@.len()
            && forall|k: int| 0 <= k < imported@.len() ==> {
                &&& #[trigger] rows@[k].content == imported@[k]
                &&& rows@[k].position == saturating_position(base, k)
                &&& is_random_v4(rows@[k].id)
            },
        !offsets_fit(imported@.len() as int) ==> (r matches Err(e) && e@ == ErrorView::Storage),
        r matches Err(e) ==> e@ == ErrorView::Storage,
{
    let count = imported.len();
    if count > 0 && (count - 1) as u64 > i64::MAX as u64 {
        return Err(ClipError::Storage);
    }
    let mut ids: Vec<ClipId> = Vec::new();
    let mut k: usize = 0;
    while k < count
        invariant
            k <= count,
            count == imported@.len(),
            ids@.len() == k,
            forall|m: int| 0 <= m < k ==> is_random_v4(#[trigger] ids@[m]),
        decreases count - k,
    {
        let id = mint_id()?;
        ids.push(id);
        k = k + 1;
    }
    Ok(rows_with_ids(base, imported, ids.as_slice()))
}

} // verus!
