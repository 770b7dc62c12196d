//! Matching the file parts of a multipart upload against the `attach://`
//! references of a request.

use vstd::prelude::*;

use crate::error::{failure, invalid_request, Error};
use crate::json::{
    key_less, lemma_key_less_irreflexive, lemma_key_less_total, lemma_key_less_transitive,
    str_less,
};
use crate::common::ChatIdView;
use crate::error::first_failure;
use crate::message::requests::{
    has_attach_prefix, is_attach_reference, media_group_items_failure, opt_caption_view,
    optional_caption_failure, optional_file_reference_failure, positive_u32_failure,
    send_options_failure, validate_caption, validate_media_group_items,
    validate_optional_file_reference, validate_positive_u32, validate_send_options,
    InputMediaGroupItem, SendAnimationRequest, SendAudioRequest, SendDocumentRequest,
    SendMediaGroupRequest, SendPhotoRequest, SendVideoNoteRequest, SendVideoRequest,
    SendVoiceRequest,
};
use crate::text::{concat2, str_eq};

verus! {

/// The name an `attach://` reference points to: what follows the prefix.
pub open spec fn attach_name(reference: Seq<char>) -> Seq<char> {
    reference.skip(9)
}

/// The names that the `attach://` references among `refs` point to, in order.
/// Other references, and absent ones, name no part.
pub open spec fn attach_names(refs: Seq<Option<String>>) -> Seq<Seq<char>>
    decreases refs.len(),
{
    if refs.len() == 0 {
        Seq::empty()
    } else {
        let rest = attach_names(refs.drop_last());
        match refs.last() {
            Some(s) => if is_attach_reference(s@) {
                rest.push(attach_name(s@))
            } else {
                rest
            },
            None => rest,
        }
    }
}

/// The names of the file parts, in order.
pub open spec fn part_names(parts: Seq<String>) -> Seq<Seq<char>> {
    parts.map_values(|p: String| p@)
}

/// `j` is the first place where a part name repeats one given before it.
pub open spec fn first_repeat(names: Seq<Seq<char>>, j: int) -> bool {
    &&& 0 <= j < names.len()
    &&& names.take(j).contains(names[j])
    &&& forall|k: int| 0 <= k < j ==> !names.take(k).contains(#[trigger] names[k])
}

/// `n` is the least name, in key order, that is in `a` and not in `b`.
pub open spec fn least_outside(a: Seq<Seq<char>>, b: Seq<Seq<char>>, n: Seq<char>) -> bool {
    &&& a.contains(n)
    &&& !b.contains(n)
    &&& forall|m: Seq<char>| #[trigger] a.contains(m) && !b.contains(m) ==> !key_less(m, n)
}

/// Why the file parts do not match the names that the references point to: a
/// part name given twice (where it first repeats), then a referenced name that
/// no part carries (the least such), then a part that no reference names (the
/// least such).
pub open spec fn parts_match_failure(names: Seq<Seq<char>>, parts: Seq<Seq<char>>) -> Option<
    Seq<char>,
> {
    if exists|j: int| first_repeat(parts, j) {
        let j = choose|j: int| first_repeat(parts, j);
        Some("duplicate multipart file field `"@ + parts[j] + "`"@)
    } else if exists|n: Seq<char>| least_outside(names, parts, n) {
        let n = choose|n: Seq<char>| least_outside(names, parts, n);
        Some("missing multipart file part for attach://"@ + n)
    } else if exists|n: Seq<char>| least_outside(parts, names, n) {
        let n = choose|n: Seq<char>| least_outside(parts, names, n);
        Some("multipart file part `"@ + n + "` is not referenced by attach://"@)
    } else {
        None
    }
}

/// Why the file parts of an upload for `method` do not fit the names that its
/// references point to: parts with no reference at all, or parts that do not
/// match the names referenced.
pub open spec fn attach_parts_failure(method: Seq<char>, names: Seq<Seq<char>>, parts: Seq<Seq<char>>) -> Option<
    Seq<char>,
> {
    if names.len() == 0 {
        if parts.len() == 0 {
            None
        } else {
            Some(method + " upload has file parts that are not referenced by attach://"@)
        }
    } else {
        parts_match_failure(names, parts)
    }
}

/// Why the file parts of an upload do not fit the references of a request for
/// `method`.
pub open spec fn attach_upload_failure(
    method: Seq<char>,
    refs: Seq<Option<String>>,
    parts: Seq<String>,
) -> Option<Seq<char>> {
    attach_parts_failure(method, attach_names(refs), part_names(parts))
}

/// Only one place can be where a name first repeats.
pub proof fn lemma_first_repeat_unique(names: Seq<Seq<char>>, i: int, j: int)
    requires
        first_repeat(names, i),
        first_repeat(names, j),
    ensures
        i == j,
{
    if i < j {
        assert(!names.take(i).contains(names[i]));
    } else if j < i {
        assert(!names.take(j).contains(names[j]));
    }
}

/// Only one name can be the least outside.
pub proof fn lemma_least_outside_unique(
    a: Seq<Seq<char>>,
    b: Seq<Seq<char>>,
    n: Seq<char>,
    m: Seq<char>,
)
    requires
        least_outside(a, b, n),
        least_outside(a, b, m),
    ensures
        n == m,
{
    if n != m {
        lemma_key_less_total(n, m);
        assert(!key_less(n, m));
        assert(!key_less(m, n));
    }
}

/// The three texts one after the other.
fn concat3(a: &str, b: &str, c: &str) -> (r: String)
    ensures
        r@ == a@ + b@ + c@,
{
    let ab = concat2(a, b);
    concat2(ab.as_str(), c)
}

/// Whether a part of that name is among `parts`.
fn has_part(parts: &[String], name: &str) -> (r: bool)
    ensures
        r == part_names(parts@).contains(name@),
{
    let mut i: usize = 0;
    while i < parts.len()
        invariant
            i <= parts@.len(),
            forall|k: int| 0 <= k < i ==> parts@[k]@ != name@,
        decreases parts@.len() - i,
    {
        if str_eq(parts[i].as_str(), name) {
            assert(part_names(parts@)[i as int] == name@);
            return true;
        }
        i = i + 1;
    }
    proof {
        if part_names(parts@).contains(name@) {
            let k = choose|k: int| 0 <= k < part_names(parts@).len() && part_names(parts@)[k] == name@;
            assert(parts@[k]@ == name@);
        }
    }
    false
}

/// Where a part name first repeats one given before it, if it does.
fn find_first_repeat(parts: &[String]) -> (r: Option<usize>)
    ensures
        match r {
            Some(j) => first_repeat(part_names(parts@), j as int),
            None => forall|j: int| !first_repeat(part_names(parts@), j),
        },
{
    let ghost names = part_names(parts@);
    let mut j: usize = 0;
    while j < parts.len()
        invariant
            j <= parts@.len(),
            names == part_names(parts@),
            forall|k: int| 0 <= k < j ==> !names.take(k).contains(#[trigger] names[k]),
        decreases parts@.len() - j,
    {
        let mut k: usize = 0;
        let mut seen = false;
        while k < j
            invariant
                k <= j < parts@.len(),
                names == part_names(parts@),
                seen ==> names.take(j as int).contains(names[j as int]),
                !seen ==> forall|m: int| 0 <= m < k ==> names[m] != names[j as int],
            decreases j - k,
        {
            if str_eq(parts[k].as_str(), parts[j].as_str()) {
                assert(names.take(j as int)[k as int] == names[j as int]);
                seen = true;
            }
            k = k + 1;
        }
        if seen {
            return Some(j);
        }
        assert(!names.take(j as int).contains(names[j as int])) by {
            if names.take(j as int).contains(names[j as int]) {
                let m = choose|m: int|
                    0 <= m < names.take(j as int).len() && names.take(j as int)[m] == names[j as int];
                assert(names[m] == names[j as int]);
            }
        }
        j = j + 1;
    }
    proof {
        lemma_no_repeat(names);
    }
    None
}

/// With no name found among those before it, no name repeats.
proof fn lemma_no_repeat(names: Seq<Seq<char>>)
    requires
        forall|k: int| 0 <= k < names.len() ==> !names.take(k).contains(#[trigger] names[k]),
    ensures
        forall|j: int| !first_repeat(names, j),
{
}

/// The least name of `a`, in key order, that is not in `b`, if there is one.
fn find_least_outside(a: &[String], b: &[String]) -> (r: Option<usize>)
    ensures
        match r {
            Some(i) => i < a@.len() && least_outside(part_names(a@), part_names(b@), a@[i as int]@),
            None => forall|n: Seq<char>| !least_outside(part_names(a@), part_names(b@), n),
        },
{
    let ghost pa = part_names(a@);
    let ghost pb = part_names(b@);
    let mut best: Option<usize> = None;
    let mut i: usize = 0;
    while i < a.len()
        invariant
            i <= a@.len(),
            pa == part_names(a@),
            pb == part_names(b@),
            match best {
                Some(k) => {
                    &&& k < i
                    &&& !pb.contains(pa[k as int])
                    &&& forall|m: int|
                        0 <= m < i && !pb.contains(#[trigger] pa[m]) ==> !key_less(pa[m], pa[k as int])
                },
                None => forall|m: int| 0 <= m < i ==> pb.contains(#[trigger] pa[m]),
            },
        decreases a@.len() - i,
    {
        if !has_part(b, a[i].as_str()) {
            assert(pa[i as int] == a@[i as int]@);
            match best {
                None => {
                    proof {
                        lemma_key_less_irreflexive(pa[i as int]);
                    }
                    best = Some(i);
                },
                Some(k) => {
                    if str_less(a[i].as_str(), a[k].as_str()) {
                        proof {
                            lemma_key_less_irreflexive(pa[i as int]);
                            assert forall|m: int|
                                0 <= m < i + 1 && !pb.contains(#[trigger] pa[m]) implies !key_less(
                                pa[m],
                                pa[i as int],
                            ) by {
                                if m < i && key_less(pa[m], pa[i as int]) {
                                    lemma_key_less_transitive(pa[m], pa[i as int], pa[k as int]);
                                }
                            }
                        }
                        best = Some(i);
                    }
                },
            }
        }
        i = i + 1;
    }
    proof {
        match best {
            Some(k) => {
                assert forall|n: Seq<char>| #[trigger] pa.contains(n) && !pb.contains(n) implies !key_less(
                    n,
                    pa[k as int],
                ) by {
                    let m = choose|m: int| 0 <= m < pa.len() && pa[m] == n;
                }
                assert(pa.contains(pa[k as int]));
                assert(pa[k as int] == a@[k as int]@);
            },
            None => {
                assert forall|n: Seq<char>| !least_outside(pa, pb, n) by {
                    if pa.contains(n) {
                        let m = choose|m: int| 0 <= m < pa.len() && pa[m] == n;
                    }
                }
            },
        }
    }
    best
}

/// Checks that the parts match the names referenced, as `parts_match_failure`
/// says.
fn validate_parts_match(names: &[String], parts: &[String]) -> (r: Result<(), Error>)
    ensures
        failure(r) == parts_match_failure(part_names(names@), part_names(parts@)),
{
    let ghost pn = part_names(names@);
    let ghost pp = part_names(parts@);
    if let Some(j) = find_first_repeat(parts) {
        proof {
            let c = choose|c: int| first_repeat(pp, c);
            lemma_first_repeat_unique(pp, c, j as int);
            assert(pp[j as int] == parts@[j as int]@);
        }
        return Err(invalid_request(concat3("duplicate multipart file field `", parts[j].as_str(), "`")));
    }
    if let Some(k) = find_least_outside(names, parts) {
        proof {
            let c = choose|c: Seq<char>| least_outside(pn, pp, c);
            lemma_least_outside_unique(pn, pp, c, names@[k as int]@);
        }
        return Err(invalid_request(concat2("missing multipart file part for attach://", names[k].as_str())));
    }
    if let Some(k) = find_least_outside(parts, names) {
        proof {
            let c = choose|c: Seq<char>| least_outside(pp, pn, c);
            lemma_least_outside_unique(pp, pn, c, parts@[k as int]@);
        }
        return Err(invalid_request(concat3("multipart file part `", parts[k].as_str(), "` is not referenced by attach://")));
    }
    Ok(())
}

/// Adds the name that `reference` points to, when it is an `attach://`
/// reference.
fn push_attach_name(reference: &str, names: &mut Vec<String>)
    ensures
        part_names(final(names)@) == part_names(old(names)@) + if is_attach_reference(reference@) {
            seq![attach_name(reference@)]
        } else {
            Seq::empty()
        },
{
    if has_attach_prefix(reference) {
        let len = reference.unicode_len();
        let name = reference.substring_char(9, len);
        names.push(String::from_str(name));
        assert(part_names(names@) =~= part_names(old(names)@) + seq![attach_name(reference@)]);
    } else {
        assert(part_names(names@) =~= part_names(old(names)@) + Seq::empty());
    }
}

/// The names that the `attach://` references among `refs` point to.
fn collect_attach_names(refs: &[Option<String>]) -> (r: Vec<String>)
    ensures
        part_names(r@) == attach_names(refs@),
{
    let mut names: Vec<String> = Vec::new();
    let mut i: usize = 0;
    assert(refs@.take(0) =~= Seq::<Option<String>>::empty());
    assert(part_names(names@) =~= Seq::<Seq<char>>::empty());
    while i < refs.len()
        invariant
            i <= refs@.len(),
            part_names(names@) == attach_names(refs@.take(i as int)),
        decreases refs@.len() - i,
    {
        assert(refs@.take(i + 1).drop_last() =~= refs@.take(i as int));
        assert(refs@.take(i + 1).last() == refs@[i as int]);
        match &refs[i] {
            Some(s) => {
                push_attach_name(s.as_str(), &mut names);
                proof {
                    if !is_attach_reference(s@) {
                        assert(part_names(names@) =~= attach_names(refs@.take(i as int)));
                    }
                }
            },
            None => {},
        }
        i = i + 1;
    }
    assert(refs@.take(refs@.len() as int) =~= refs@);
    names
}

/// Checks the parts against the names referenced, as `attach_parts_failure`
/// says.
fn validate_attach_parts(method: &str, names: &[String], file_names: &[String]) -> (r: Result<(), Error>)
    ensures
        failure(r) == attach_parts_failure(method@, part_names(names@), part_names(file_names@)),
{
    if names.len() == 0 {
        if file_names.len() == 0 {
            return Ok(());
        }
        return Err(invalid_request(concat2(method, " upload has file parts that are not referenced by attach://")));
    }
    validate_parts_match(names, file_names)
}

/// Checks the file parts of an upload for `method` against the references of
/// its request, as `attach_upload_failure` says. An `attach://` name is not
/// itself checked here.
pub fn validate_attach_upload_parts(
    method: &str,
    references: &[Option<String>],
    file_names: &[String],
) -> (r: Result<(), Error>)
    ensures
        failure(r) == attach_upload_failure(method@, references@, file_names@),
{
    let names = collect_attach_names(references);
    validate_attach_parts(method, names.as_slice(), file_names)
}

/// The same check for a request with a single optional reference.
fn validate_one_attach_upload_parts(
    method: &str,
    reference: &Option<String>,
    file_names: &[String],
) -> (r: Result<(), Error>)
    ensures
        failure(r) == attach_upload_failure(method@, seq![*reference], file_names@),
{
    let mut names: Vec<String> = Vec::new();
    if let Some(s) = reference {
        push_attach_name(s.as_str(), &mut names);
    }
    proof {
        lemma_attach_names_one(*reference);
        assert(part_names(names@) =~= attach_names(seq![*reference]));
    }
    validate_attach_parts(method, names.as_slice(), file_names)
}

/// The file references of a media group item: its media, then its thumbnail.
pub open spec fn item_references(item: InputMediaGroupItem) -> Seq<Option<String>> {
    match item {
        InputMediaGroupItem::Photo(p) => seq![Some(p.media)],
        InputMediaGroupItem::Video(v) => seq![Some(v.media), v.thumbnail],
        InputMediaGroupItem::Audio(a) => seq![Some(a.media), a.thumbnail],
        InputMediaGroupItem::Document(d) => seq![Some(d.media), d.thumbnail],
    }
}

/// The file references of a media group, item by item.
pub open spec fn group_references(items: Seq<InputMediaGroupItem>) -> Seq<Option<String>>
    decreases items.len(),
{
    if items.len() == 0 {
        Seq::empty()
    } else {
        group_references(items.drop_last()) + item_references(items.last())
    }
}

/// Why the file parts of a media group upload are refused: no part at all, no
/// `attach://` reference at all, or parts that do not match the names
/// referenced.
pub open spec fn media_group_upload_failure(items: Seq<InputMediaGroupItem>, parts: Seq<String>) -> Option<
    Seq<char>,
> {
    if parts.len() == 0 {
        Some("sendMediaGroup upload requires at least one file part"@)
    } else if attach_names(group_references(items)).len() == 0 {
        Some("sendMediaGroup upload requires at least one attach:// media or thumbnail reference"@)
    } else {
        parts_match_failure(attach_names(group_references(items)), part_names(parts))
    }
}

/// The names of two runs of references are those of the first, then those of
/// the second.
pub proof fn lemma_attach_names_append(a: Seq<Option<String>>, b: Seq<Option<String>>)
    ensures
        attach_names(a + b) == attach_names(a) + attach_names(b),
    decreases b.len(),
{
    if b.len() == 0 {
        assert(a + b =~= a);
        assert(attach_names(a) + attach_names(b) =~= attach_names(a));
    } else {
        lemma_attach_names_append(a, b.drop_last());
        assert((a + b).drop_last() =~= a + b.drop_last());
        assert((a + b).last() == b.last());
        let ra = attach_names(a);
        let rb = attach_names(b.drop_last());
        match b.last() {
            Some(s) => {
                if is_attach_reference(s@) {
                    assert((ra + rb).push(attach_name(s@)) =~= ra + rb.push(attach_name(s@)));
                }
            },
            None => {},
        }
    }
}

/// The names of a single reference.
proof fn lemma_attach_names_one(x: Option<String>)
    ensures
        attach_names(seq![x]) == match x {
            Some(s) => if is_attach_reference(s@) {
                seq![attach_name(s@)]
            } else {
                Seq::empty()
            },
            None => Seq::empty(),
        },
{
    assert(seq![x].drop_last() =~= Seq::<Option<String>>::empty());
    assert(seq![x].last() == x);
    assert(attach_names(Seq::<Option<String>>::empty()) == Seq::<Seq<char>>::empty());
    match x {
        Some(s) => {
            assert(Seq::<Seq<char>>::empty().push(attach_name(s@)) =~= seq![attach_name(s@)]);
        },
        None => {},
    }
}

/// `reference` is an `attach://` reference to the part named `name`.
pub open spec fn points_to(reference: Option<String>, name: Seq<char>) -> bool {
    reference matches Some(s) && is_attach_reference(s@) && s@.skip(9) == name
}

/// A media group item points to the part named `name` by its media or, for a
/// video, an audio file or a document, by its thumbnail.
pub open spec fn item_points_to(item: InputMediaGroupItem, name: Seq<char>) -> bool {
    match item {
        InputMediaGroupItem::Photo(p) => points_to(Some(p.media), name),
        InputMediaGroupItem::Video(v) => points_to(Some(v.media), name) || points_to(v.thumbnail, name),
        InputMediaGroupItem::Audio(a) => points_to(Some(a.media), name) || points_to(a.thumbnail, name),
        InputMediaGroupItem::Document(d) => points_to(Some(d.media), name) || points_to(d.thumbnail, name),
    }
}

/// A name in either of two runs is in the two joined.
proof fn lemma_contains_append(a: Seq<Seq<char>>, b: Seq<Seq<char>>, x: Seq<char>)
    ensures
        (a + b).contains(x) == (a.contains(x) || b.contains(x)),
{
    if a.contains(x) {
        let j = choose|j: int| 0 <= j < a.len() && a[j] == x;
        assert((a + b)[j] == x);
    }
    if b.contains(x) {
        let j = choose|j: int| 0 <= j < b.len() && b[j] == x;
        assert((a + b)[a.len() + j] == x);
    }
    if (a + b).contains(x) {
        let j = choose|j: int| 0 <= j < (a + b).len() && (a + b)[j] == x;
        if j < a.len() {
            assert(a[j] == x);
        } else {
            assert(b[j - a.len()] == x);
        }
    }
}

/// The names of a single reference are the one it points to, if any.
proof fn lemma_one_reference_names(x: Option<String>, name: Seq<char>)
    ensures
        attach_names(seq![x]).contains(name) == points_to(x, name),
{
    lemma_attach_names_one(x);
    if let Some(s) = x {
        if is_attach_reference(s@) {
            assert(seq![attach_name(s@)][0] == attach_name(s@));
        }
    }
}

/// The names the references of an item point to are those it points to.
proof fn lemma_item_reference_names(item: InputMediaGroupItem, name: Seq<char>)
    ensures
        attach_names(item_references(item)).contains(name) == item_points_to(item, name),
{
    match item {
        InputMediaGroupItem::Photo(p) => {
            lemma_one_reference_names(Some(p.media), name);
        },
        InputMediaGroupItem::Video(v) => {
            lemma_attach_names_append(seq![Some(v.media)], seq![v.thumbnail]);
            assert(seq![Some(v.media)] + seq![v.thumbnail] =~= item_references(item));
            lemma_contains_append(attach_names(seq![Some(v.media)]), attach_names(seq![v.thumbnail]), name);
            lemma_one_reference_names(Some(v.media), name);
            lemma_one_reference_names(v.thumbnail, name);
        },
        InputMediaGroupItem::Audio(a) => {
            lemma_attach_names_append(seq![Some(a.media)], seq![a.thumbnail]);
            assert(seq![Some(a.media)] + seq![a.thumbnail] =~= item_references(item));
            lemma_contains_append(attach_names(seq![Some(a.media)]), attach_names(seq![a.thumbnail]), name);
            lemma_one_reference_names(Some(a.media), name);
            lemma_one_reference_names(a.thumbnail, name);
        },
        InputMediaGroupItem::Document(d) => {
            lemma_attach_names_append(seq![Some(d.media)], seq![d.thumbnail]);
            assert(seq![Some(d.media)] + seq![d.thumbnail] =~= item_references(item));
            lemma_contains_append(attach_names(seq![Some(d.media)]), attach_names(seq![d.thumbnail]), name);
            lemma_one_reference_names(Some(d.media), name);
            lemma_one_reference_names(d.thumbnail, name);
        },
    }
}

/// The names a media group upload must carry parts for are exactly those its
/// items point to: every `attach://` reference in an item's media or thumbnail
/// names a part of the upload, and no other name does.
pub proof fn lemma_group_names_are_item_names(items: Seq<InputMediaGroupItem>, name: Seq<char>)
    ensures
        attach_names(group_references(items)).contains(name) == exists|i: int|
            0 <= i < items.len() && item_points_to(#[trigger] items[i], name),
    decreases items.len(),
{
    if items.len() > 0 {
        let prev = items.drop_last();
        lemma_group_names_are_item_names(prev, name);
        lemma_attach_names_append(group_references(prev), item_references(items.last()));
        lemma_contains_append(
            attach_names(group_references(prev)),
            attach_names(item_references(items.last())),
            name,
        );
        lemma_item_reference_names(items.last(), name);
        if exists|i: int| 0 <= i < items.len() && item_points_to(#[trigger] items[i], name) {
            let i = choose|i: int| 0 <= i < items.len() && item_points_to(#[trigger] items[i], name);
            if i < prev.len() {
                assert(prev[i] == items[i]);
            }
        }
        if exists|i: int| 0 <= i < prev.len() && item_points_to(#[trigger] prev[i], name) {
            let i = choose|i: int| 0 <= i < prev.len() && item_points_to(#[trigger] prev[i], name);
            assert(items[i] == prev[i]);
        }
        if item_points_to(items.last(), name) {
            assert(items[items.len() - 1] == items.last());
        }
    }
}

/// Among the first `k` names of `a`, one outside `b` that no other outside
/// name comes before, where some name there is outside `b`.
proof fn lemma_least_in_prefix(a: Seq<Seq<char>>, b: Seq<Seq<char>>, k: nat) -> (m: int)
    requires
        k <= a.len(),
        exists|j: int| 0 <= j < k && !b.contains(#[trigger] a[j]),
    ensures
        0 <= m < k,
        !b.contains(a[m]),
        forall|j: int| 0 <= j < k && !b.contains(#[trigger] a[j]) ==> !key_less(a[j], a[m]),
    decreases k,
{
    let last = k - 1;
    if exists|j: int| 0 <= j < last && !b.contains(#[trigger] a[j]) {
        let m = lemma_least_in_prefix(a, b, last as nat);
        if !b.contains(a[last]) && key_less(a[last], a[m]) {
            lemma_key_less_irreflexive(a[last]);
            assert forall|j: int| 0 <= j < k && !b.contains(#[trigger] a[j]) implies !key_less(
                a[j],
                a[last],
            ) by {
                if j < last && key_less(a[j], a[last]) {
                    lemma_key_less_transitive(a[j], a[last], a[m]);
                }
            }
            last
        } else {
            m
        }
    } else {
        lemma_key_less_irreflexive(a[last]);
        last
    }
}

/// Where some name of `a` is outside `b`, a least such name exists.
proof fn lemma_least_exists(a: Seq<Seq<char>>, b: Seq<Seq<char>>, x: Seq<char>)
    requires
        a.contains(x),
        !b.contains(x),
    ensures
        exists|n: Seq<char>| least_outside(a, b, n),
{
    let j = choose|j: int| 0 <= j < a.len() && a[j] == x;
    assert(!b.contains(a[j]));
    let m = lemma_least_in_prefix(a, b, a.len());
    assert forall|n: Seq<char>| #[trigger] a.contains(n) && !b.contains(n) implies !key_less(n, a[m]) by {
        let i = choose|i: int| 0 <= i < a.len() && a[i] == n;
        assert(!b.contains(a[i]));
    }
    assert(a.contains(a[m]));
    assert(least_outside(a, b, a[m]));
}

/// A part that some item of the group points to, by its media or its
/// thumbnail, is never reported as unreferenced, and a name that an item
/// points to is never missing from a media group upload that is accepted.
pub proof fn lemma_item_parts_are_referenced(
    items: Seq<InputMediaGroupItem>,
    parts: Seq<String>,
    i: int,
    name: Seq<char>,
)
    requires
        0 <= i < items.len(),
        item_points_to(items[i], name),
    ensures
        !least_outside(part_names(parts), attach_names(group_references(items)), name),
        media_group_upload_failure(items, parts) is None ==> part_names(parts).contains(name),
{
    lemma_group_names_are_item_names(items, name);
    if media_group_upload_failure(items, parts) is None && !part_names(parts).contains(name) {
        let names = attach_names(group_references(items));
        let pp = part_names(parts);
        assert(names.contains(name) && !pp.contains(name));
        // some least missing name exists, so the check would fail
        lemma_least_exists(names, pp, name);
    }
}

/// Adds the names that the references of one item point to.
fn push_item_names(item: &InputMediaGroupItem, names: &mut Vec<String>)
    ensures
        part_names(final(names)@) == part_names(old(names)@) + attach_names(item_references(*item)),
{
    let ghost start = part_names(names@);
    match item {
        InputMediaGroupItem::Photo(p) => {
            push_attach_name(p.media.as_str(), names);
            proof {
                lemma_attach_names_one(Some(p.media));
            }
        },
        InputMediaGroupItem::Video(v) => {
            push_attach_name(v.media.as_str(), names);
            if let Some(t) = &v.thumbnail {
                push_attach_name(t.as_str(), names);
            }
            proof {
                lemma_attach_names_one(Some(v.media));
                lemma_attach_names_one(v.thumbnail);
                lemma_attach_names_append(seq![Some(v.media)], seq![v.thumbnail]);
                assert(seq![Some(v.media)] + seq![v.thumbnail] =~= item_references(*item));
            }
        },
        InputMediaGroupItem::Audio(a) => {
            push_attach_name(a.media.as_str(), names);
            if let Some(t) = &a.thumbnail {
                push_attach_name(t.as_str(), names);
            }
            proof {
                lemma_attach_names_one(Some(a.media));
                lemma_attach_names_one(a.thumbnail);
                lemma_attach_names_append(seq![Some(a.media)], seq![a.thumbnail]);
                assert(seq![Some(a.media)] + seq![a.thumbnail] =~= item_references(*item));
            }
        },
        InputMediaGroupItem::Document(d) => {
            push_attach_name(d.media.as_str(), names);
            if let Some(t) = &d.thumbnail {
                push_attach_name(t.as_str(), names);
            }
            proof {
                lemma_attach_names_one(Some(d.media));
                lemma_attach_names_one(d.thumbnail);
                lemma_attach_names_append(seq![Some(d.media)], seq![d.thumbnail]);
                assert(seq![Some(d.media)] + seq![d.thumbnail] =~= item_references(*item));
            }
        },
    }
    assert(part_names(names@) =~= start + attach_names(item_references(*item)));
}

/// The names that the references of a media group point to.
fn collect_group_attach_names(items: &[InputMediaGroupItem]) -> (r: Vec<String>)
    ensures
        part_names(r@) == attach_names(group_references(items@)),
{
    let mut names: Vec<String> = Vec::new();
    let mut i: usize = 0;
    assert(items@.take(0) =~= Seq::<InputMediaGroupItem>::empty());
    assert(part_names(names@) =~= Seq::<Seq<char>>::empty());
    while i < items.len()
        invariant
            i <= items@.len(),
            part_names(names@) == attach_names(group_references(items@.take(i as int))),
        decreases items@.len() - i,
    {
        assert(items@.take(i + 1).drop_last() =~= items@.take(i as int));
        assert(items@.take(i + 1).last() == items@[i as int]);
        push_item_names(&items[i], &mut names);
        proof {
            lemma_attach_names_append(
                group_references(items@.take(i as int)),
                item_references(items@[i as int]),
            );
        }
        i = i + 1;
    }
    assert(items@.take(items@.len() as int) =~= items@);
    names
}

/// Checks the file parts of a media group upload against the references of
/// its items, as `media_group_upload_failure` says. An `attach://` name is not
/// itself checked here.
pub fn validate_media_group_upload_parts(
    media: &[InputMediaGroupItem],
    file_names: &[String],
) -> (r: Result<(), Error>)
    ensures
        failure(r) == media_group_upload_failure(media@, file_names@),
{
    if file_names.len() == 0 {
        return Err(invalid_request("sendMediaGroup upload requires at least one file part".to_owned()));
    }
    let names = collect_group_attach_names(media);
    if names.len() == 0 {
        return Err(
            invalid_request(
                "sendMediaGroup upload requires at least one attach:// media or thumbnail reference".to_owned(),
            ),
        );
    }
    validate_parts_match(names.as_slice(), file_names)
}

/// Why a `SendMediaGroupRequest` sent as a multipart upload with parts of the
/// given names is refused: its send options, its items, then its parts.
pub open spec fn send_media_group_upload_failure(r: SendMediaGroupRequest, parts: Seq<String>) -> Option<
    Seq<char>,
> {
    first_failure(
        send_options_failure(
            r.business_connection_id,
            r.chat_id@,
            r.message_thread_id,
            r.direct_messages_topic_id,
            r.message_effect_id,
        ),
        first_failure(
            media_group_items_failure(r.media@),
            media_group_upload_failure(r.media@, parts),
        ),
    )
}

impl SendMediaGroupRequest {
    /// Checks the request as it is sent in a multipart upload whose file parts
    /// carry the given names. The formatting of the captions (parse mode and
    /// entities) is not checked here.
    pub fn validate_upload(&self, file_names: &[String]) -> (r: Result<(), Error>)
        ensures
            failure(r) == send_media_group_upload_failure(*self, file_names@),
    {
        let res = validate_send_options(
            &self.business_connection_id,
            &self.chat_id,
            self.message_thread_id,
            self.direct_messages_topic_id,
            &self.message_effect_id,
        );
        if res.is_err() {
            return res;
        }
        let res = validate_media_group_items(self.media.as_slice());
        if res.is_err() {
            return res;
        }
        validate_media_group_upload_parts(self.media.as_slice(), file_names)
    }
}

/// Why a request sent as a multipart upload is refused for a file field that
/// is set: the file travels in a part instead.
pub open spec fn absent_upload_field_failure(label: Seq<char>, value: Option<String>) -> Option<Seq<char>> {
    if value is Some {
        Some(label + " must be omitted for multipart upload requests"@)
    } else {
        None
    }
}

fn validate_absent_upload_field(label: &str, value: &Option<String>) -> (r: Result<(), Error>)
    ensures
        failure(r) == absent_upload_field_failure(label@, *value),
{
    if value.is_some() {
        return Err(invalid_request(concat2(label, " must be omitted for multipart upload requests")));
    }
    Ok(())
}



/// Why a `SendPhotoRequest` sent as a multipart upload is refused: its `photo` field must
/// be left out, then the checks of a plain send.
pub open spec fn send_photo_upload_failure(r: SendPhotoRequest) -> Option<Seq<char>> {
    first_failure(
        absent_upload_field_failure("photo"@, r.photo),
        first_failure(
            send_options_failure(
                r.business_connection_id,
                r.chat_id@,
                r.message_thread_id,
                r.direct_messages_topic_id,
                r.message_effect_id,
            ),
            optional_caption_failure(opt_caption_view(r.caption)),
        ),
    )
}

impl SendPhotoRequest {
    /// Checks the request as it is sent in a multipart upload. The formatting
    /// of the caption (parse mode and entities) is not checked here.
    pub fn validate_upload(&self) -> (r: Result<(), Error>)
        ensures
            failure(r) == send_photo_upload_failure(*self),
    {
        let res = validate_absent_upload_field("photo", &self.photo);
        if res.is_err() {
            return res;
        }
        let res = validate_send_options(
            &self.business_connection_id,
            &self.chat_id,
            self.message_thread_id,
            self.direct_messages_topic_id,
            &self.message_effect_id,
        );
        if res.is_err() {
            return res;
        }
        validate_caption(&self.caption)
    }
}

/// Why a `SendVoiceRequest` sent as a multipart upload is refused: its `voice` field must
/// be left out, then the checks of a plain send.
pub open spec fn send_voice_upload_failure(r: SendVoiceRequest) -> Option<Seq<char>> {
    first_failure(
        absent_upload_field_failure("voice"@, r.voice),
        first_failure(
            send_options_failure(
                r.business_connection_id,
                r.chat_id@,
                r.message_thread_id,
                r.direct_messages_topic_id,
                r.message_effect_id,
            ),
            first_failure(
                optional_caption_failure(opt_caption_view(r.caption)),
                positive_u32_failure("duration"@, r.duration),
            ),
        ),
    )
}

impl SendVoiceRequest {
    /// Checks the request as it is sent in a multipart upload. The formatting
    /// of the caption (parse mode and entities) is not checked here.
    pub fn validate_upload(&self) -> (r: Result<(), Error>)
        ensures
            failure(r) == send_voice_upload_failure(*self),
    {
        let res = validate_absent_upload_field("voice", &self.voice);
        if res.is_err() {
            return res;
        }
        let res = validate_send_options(
            &self.business_connection_id,
            &self.chat_id,
            self.message_thread_id,
            self.direct_messages_topic_id,
            &self.message_effect_id,
        );
        if res.is_err() {
            return res;
        }
        let res = validate_caption(&self.caption);
        if res.is_err() {
            return res;
        }
        validate_positive_u32("duration", self.duration)
    }
}

/// Why a `SendAudioRequest` sent as a multipart upload with parts of the given names is
/// refused: its `audio` field must be left out, then the checks of a plain send, then
/// the parts must match its thumbnail reference.
pub open spec fn send_audio_upload_failure(r: SendAudioRequest, parts: Seq<String>) -> Option<Seq<char>> {
    first_failure(
        absent_upload_field_failure("audio"@, r.audio),
        first_failure(
            send_options_failure(
                r.business_connection_id,
                r.chat_id@,
                r.message_thread_id,
                r.direct_messages_topic_id,
                r.message_effect_id,
            ),
            first_failure(
                optional_caption_failure(opt_caption_view(r.caption)),
                first_failure(
                    optional_file_reference_failure("thumbnail"@, r.thumbnail),
                    first_failure(
                        positive_u32_failure("duration"@, r.duration),
                        attach_upload_failure("sendAudio"@, seq![r.thumbnail], parts),
                    ),
                ),
            ),
        ),
    )
}

impl SendAudioRequest {
    /// Checks the request as it is sent in a multipart upload whose file parts
    /// carry the given names. The formatting of the caption (parse mode and
    /// entities) and the name of a part are not checked here.
    pub fn validate_upload_parts(&self, file_names: &[String]) -> (r: Result<(), Error>)
        ensures
            failure(r) == send_audio_upload_failure(*self, file_names@),
    {
        let res = validate_absent_upload_field("audio", &self.audio);
        if res.is_err() {
            return res;
        }
        let res = validate_send_options(
            &self.business_connection_id,
            &self.chat_id,
            self.message_thread_id,
            self.direct_messages_topic_id,
            &self.message_effect_id,
        );
        if res.is_err() {
            return res;
        }
        let res = validate_caption(&self.caption);
        if res.is_err() {
            return res;
        }
        let res = validate_optional_file_reference("thumbnail", &self.thumbnail);
        if res.is_err() {
            return res;
        }
        let res = validate_positive_u32("duration", self.duration);
        if res.is_err() {
            return res;
        }
        validate_one_attach_upload_parts("sendAudio", &self.thumbnail, file_names)
    }
}

/// Why a `SendDocumentRequest` sent as a multipart upload with parts of the given names is
/// refused: its `document` field must be left out, then the checks of a plain send, then
/// the parts must match its thumbnail reference.
pub open spec fn send_document_upload_failure(r: SendDocumentRequest, parts: Seq<String>) -> Option<Seq<char>> {
    first_failure(
        absent_upload_field_failure("document"@, r.document),
        first_failure(
            send_options_failure(
                r.business_connection_id,
                r.chat_id@,
                r.message_thread_id,
                r.direct_messages_topic_id,
                r.message_effect_id,
            ),
            first_failure(
                optional_caption_failure(opt_caption_view(r.caption)),
                first_failure(
                    optional_file_reference_failure("thumbnail"@, r.thumbnail),
                    attach_upload_failure("sendDocument"@, seq![r.thumbnail], parts),
                ),
            ),
        ),
    )
}

impl SendDocumentRequest {
    /// Checks the request as it is sent in a multipart upload whose file parts
    /// carry the given names. The formatting of the caption (parse mode and
    /// entities) and the name of a part are not checked here.
    pub fn validate_upload_parts(&self, file_names: &[String]) -> (r: Result<(), Error>)
        ensures
            failure(r) == send_document_upload_failure(*self, file_names@),
    {
        let res = validate_absent_upload_field("document", &self.document);
        if res.is_err() {
            return res;
        }
        let res = validate_send_options(
            &self.business_connection_id,
            &self.chat_id,
            self.message_thread_id,
            self.direct_messages_topic_id,
            &self.message_effect_id,
        );
        if res.is_err() {
            return res;
        }
        let res = validate_caption(&self.caption);
        if res.is_err() {
            return res;
        }
        let res = validate_optional_file_reference("thumbnail", &self.thumbnail);
        if res.is_err() {
            return res;
        }
        validate_one_attach_upload_parts("sendDocument", &self.thumbnail, file_names)
    }
}

/// Why a `SendVideoRequest` sent as a multipart upload with parts of the given names is
/// refused: its `video` field must be left out, then the checks of a plain send, then
/// the parts must match its thumbnail reference.
pub open spec fn send_video_upload_failure(r: SendVideoRequest, parts: Seq<String>) -> Option<Seq<char>> {
    first_failure(
        absent_upload_field_failure("video"@, r.video),
        first_failure(
            send_options_failure(
                r.business_connection_id,
                r.chat_id@,
                r.message_thread_id,
                r.direct_messages_topic_id,
                r.message_effect_id,
            ),
            first_failure(
                optional_caption_failure(opt_caption_view(r.caption)),
                first_failure(
                    optional_file_reference_failure("thumbnail"@, r.thumbnail),
                    first_failure(
                        positive_u32_failure("duration"@, r.duration),
                        first_failure(
                            positive_u32_failure("width"@, r.width),
                            first_failure(
                                positive_u32_failure("height"@, r.height),
                                attach_upload_failure("sendVideo"@, seq![r.thumbnail], parts),
                            ),
                        ),
                    ),
                ),
            ),
        ),
    )
}

impl SendVideoRequest {
    /// Checks the request as it is sent in a multipart upload whose file parts
    /// carry the given names. The formatting of the caption (parse mode and
    /// entities) and the name of a part are not checked here.
    pub fn validate_upload_parts(&self, file_names: &[String]) -> (r: Result<(), Error>)
        ensures
            failure(r) == send_video_upload_failure(*self, file_names@),
    {
        let res = validate_absent_upload_field("video", &self.video);
        if res.is_err() {
            return res;
        }
        let res = validate_send_options(
            &self.business_connection_id,
            &self.chat_id,
            self.message_thread_id,
            self.direct_messages_topic_id,
            &self.message_effect_id,
        );
        if res.is_err() {
            return res;
        }
        let res = validate_caption(&self.caption);
        if res.is_err() {
            return res;
        }
        let res = validate_optional_file_reference("thumbnail", &self.thumbnail);
        if res.is_err() {
            return res;
        }
        let res = validate_positive_u32("duration", self.duration);
        if res.is_err() {
            return res;
        }
        let res = validate_positive_u32("width", self.width);
        if res.is_err() {
            return res;
        }
        let res = validate_positive_u32("height", self.height);
        if res.is_err() {
            return res;
        }
        validate_one_attach_upload_parts("sendVideo", &self.thumbnail, file_names)
    }
}

/// Why a `SendAnimationRequest` sent as a multipart upload with parts of the given names is
/// refused: its `animation` field must be left out, then the checks of a plain send, then
/// the parts must match its thumbnail reference.
pub open spec fn send_animation_upload_failure(r: SendAnimationRequest, parts: Seq<String>) -> Option<Seq<char>> {
    first_failure(
        absent_upload_field_failure("animation"@, r.animation),
        first_failure(
            send_options_failure(
                r.business_connection_id,
                r.chat_id@,
                r.message_thread_id,
                r.direct_messages_topic_id,
                r.message_effect_id,
            ),
            first_failure(
                optional_caption_failure(opt_caption_view(r.caption)),
                first_failure(
                    optional_file_reference_failure("thumbnail"@, r.thumbnail),
                    first_failure(
                        positive_u32_failure("duration"@, r.duration),
                        first_failure(
                            positive_u32_failure("width"@, r.width),
                            first_failure(
                                positive_u32_failure("height"@, r.height),
                                attach_upload_failure("sendAnimation"@, seq![r.thumbnail], parts),
                            ),
                        ),
                    ),
                ),
            ),
        ),
    )
}

impl SendAnimationRequest {
    /// Checks the request as it is sent in a multipart upload whose file parts
    /// carry the given names. The formatting of the caption (parse mode and
    /// entities) and the name of a part are not checked here.
    pub fn validate_upload_parts(&self, file_names: &[String]) -> (r: Result<(), Error>)
        ensures
            failure(r) == send_animation_upload_failure(*self, file_names@),
    {
        let res = validate_absent_upload_field("animation", &self.animation);
        if res.is_err() {
            return res;
        }
        let res = validate_send_options(
            &self.business_connection_id,
            &self.chat_id,
            self.message_thread_id,
            self.direct_messages_topic_id,
            &self.message_effect_id,
        );
        if res.is_err() {
            return res;
        }
        let res = validate_caption(&self.caption);
        if res.is_err() {
            return res;
        }
        let res = validate_optional_file_reference("thumbnail", &self.thumbnail);
        if res.is_err() {
            return res;
        }
        let res = validate_positive_u32("duration", self.duration);
        if res.is_err() {
            return res;
        }
        let res = validate_positive_u32("width", self.width);
        if res.is_err() {
            return res;
        }
        let res = validate_positive_u32("height", self.height);
        if res.is_err() {
            return res;
        }
        validate_one_attach_upload_parts("sendAnimation", &self.thumbnail, file_names)
    }
}

/// Why a `SendVideoNoteRequest` sent as a multipart upload with parts of the given names is
/// refused: its `video_note` field must be left out, then the checks of a plain send, then
/// the parts must match its thumbnail reference.
pub open spec fn send_video_note_upload_failure(r: SendVideoNoteRequest, parts: Seq<String>) -> Option<Seq<char>> {
    first_failure(
        absent_upload_field_failure("video_note"@, r.video_note),
        first_failure(
            send_options_failure(
                r.business_connection_id,
                r.chat_id@,
                r.message_thread_id,
                r.direct_messages_topic_id,
                r.message_effect_id,
            ),
            first_failure(
                optional_file_reference_failure("thumbnail"@, r.thumbnail),
                first_failure(
                    positive_u32_failure("duration"@, r.duration),
                    first_failure(
                        positive_u32_failure("length"@, r.length),
                        attach_upload_failure("sendVideoNote"@, seq![r.thumbnail], parts),
                    ),
                ),
            ),
        ),
    )
}

impl SendVideoNoteRequest {
    /// Checks the request as it is sent in a multipart upload whose file parts
    /// carry the given names. The formatting of the caption (parse mode and
    /// carry the given names. The name of a part is not checked here.
    pub fn validate_upload_parts(&self, file_names: &[String]) -> (r: Result<(), Error>)
        ensures
            failure(r) == send_video_note_upload_failure(*self, file_names@),
    {
        let res = validate_absent_upload_field("video_note", &self.video_note);
        if res.is_err() {
            return res;
        }
        let res = validate_send_options(
            &self.business_connection_id,
            &self.chat_id,
            self.message_thread_id,
            self.direct_messages_topic_id,
            &self.message_effect_id,
        );
        if res.is_err() {
            return res;
        }
        let res = validate_optional_file_reference("thumbnail", &self.thumbnail);
        if res.is_err() {
            return res;
        }
        let res = validate_positive_u32("duration", self.duration);
        if res.is_err() {
            return res;
        }
        let res = validate_positive_u32("length", self.length);
        if res.is_err() {
            return res;
        }
        validate_one_attach_upload_parts("sendVideoNote", &self.thumbnail, file_names)
    }
}

} // verus!
