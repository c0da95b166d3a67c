//! The backend options of a create request: a name-value list that always
//! holds the backing file and the daemon's name for the LUN, followed by the
//! configuration's own options, none of which may take those two names.

use vstd::prelude::*;
use crate::conf::Lun;
use crate::text::{pairs_view, str_eq};

verus! {

#[verifier::external_type_specification]
#[verifier::external_body]
pub struct ExNvList(libnv::libnv::NvList);

#[verifier::external_type_specification]
#[verifier::external_body]
pub struct ExNvError(libnv::NvError);

/// The values that a list holds, by name; a list made without
/// `NvFlag::NoUnique` holds each name once.
pub uninterp spec fn nv_entries(l: libnv::libnv::NvList) -> Map<Seq<char>, Seq<char>>;

/// The map of no names.
pub open spec fn no_entries() -> Map<Seq<char>, Seq<char>> {
    Map::empty()
}

/// Relies on `NvList::new(NvFlag::None)`: a new list holds no pair.
#[verifier::external_body]
fn nv_new() -> (r: Result<libnv::libnv::NvList, libnv::NvError>)
    ensures
        r matches Ok(l) ==> nv_entries(l) == no_entries(),
{
    libnv::libnv::NvList::new(libnv::libnv::NvFlag::None)
}

/// Relies on `NvList::insert_string`: when it succeeds, the list holds the
/// value under the name.
#[verifier::external_body]
fn nv_insert_string(l: &mut libnv::libnv::NvList, name: &str, value: &str) -> (r: Result<(), libnv::NvError>)
    ensures
        r is Ok ==> nv_entries(*final(l)) == nv_entries(*old(l)).insert(name@, value@),
{
    l.insert_string(name, value)
}

/// The names that the daemon sets itself.
pub open spec fn is_reserved_option(k: Seq<char>) -> bool {
    k == "file"@ || k == "ctld_name"@
}

/// The configuration's options without those of reserved names, in order.
pub open spec fn extra_options(opts: Seq<(String, String)>) -> Seq<(Seq<char>, Seq<char>)>
    decreases opts.len(),
{
    if opts.len() == 0 {
        Seq::empty()
    } else {
        let rest = extra_options(opts.drop_last());
        if is_reserved_option(opts.last().0@) {
            rest
        } else {
            rest.push((opts.last().0@, opts.last().1@))
        }
    }
}

/// The options sent with the request that creates `lun` under `name`.
pub open spec fn backend_options(name: Seq<char>, lun: Lun) -> Seq<(Seq<char>, Seq<char>)> {
    seq![("file"@, lun.path@), ("ctld_name"@, name)] + extra_options(lun.options@)
}

/// Why the option list of a create request could not be built.
#[derive(Clone, Copy, Debug, PartialEq, Eq, Structural)]
pub enum OptionsError {
    /// The list refused a pair, or memory ran out.
    ListRefused,
}

/// The options of the request that creates `lun` under `name`.
pub fn option_pairs(name: &str, lun: &Lun) -> (r: Vec<(String, String)>)
    ensures
        pairs_view(r@) == backend_options(name@, *lun),
{
    let mut r: Vec<(String, String)> = Vec::new();
    r.push(("file".to_owned(), lun.path.clone()));
    r.push(("ctld_name".to_owned(), name.to_owned()));
    assert(pairs_view(r@) =~= seq![("file"@, lun.path@), ("ctld_name"@, name@)]);
    let mut i: usize = 0;
    while i < lun.options.len()
        invariant
            0 <= i <= lun.options@.len(),
            pairs_view(r@) == seq![("file"@, lun.path@), ("ctld_name"@, name@)] + extra_options(
                lun.options@.subrange(0, i as int),
            ),
        decreases lun.options@.len() - i,
    {
        let k = &lun.options[i].0;
        let v = &lun.options[i].1;
        assert(lun.options@.subrange(0, i + 1).drop_last() =~= lun.options@.subrange(0, i as int));
        if !(str_eq(k.as_str(), "file") || str_eq(k.as_str(), "ctld_name")) {
            let ghost before = r@;
            r.push((k.clone(), v.clone()));
            assert(pairs_view(r@) =~= pairs_view(before).push((k@, v@)));
        }
        i += 1;
    }
    assert(lun.options@.subrange(0, lun.options@.len() as int) =~= lun.options@);
    r
}

/// The map that a sequence of pairs makes when each is added in turn.
pub open spec fn pairs_map(p: Seq<(Seq<char>, Seq<char>)>) -> Map<Seq<char>, Seq<char>>
    decreases p.len(),
{
    if p.len() == 0 {
        Map::empty()
    } else {
        pairs_map(p.drop_last()).insert(p.last().0, p.last().1)
    }
}

/// The list of options for the request that creates `lun` under `name`.
pub fn option_list(name: &str, lun: &Lun) -> (r: Result<libnv::libnv::NvList, OptionsError>)
    ensures
        r matches Ok(l) ==> nv_entries(l) == pairs_map(backend_options(name@, *lun)),
{
    let pairs = option_pairs(name, lun);
    list_of_pairs(&pairs)
}

/// A list holding the given pairs, each added in turn.
pub fn list_of_pairs(pairs: &Vec<(String, String)>) -> (r: Result<libnv::libnv::NvList, OptionsError>)
    ensures
        r matches Ok(l) ==> nv_entries(l) == pairs_map(pairs_view(pairs@)),
{
    let mut l = match nv_new() {
        Ok(l) => l,
        Err(_) => return Err(OptionsError::ListRefused),
    };
    let mut i: usize = 0;
    while i < pairs.len()
        invariant
            0 <= i <= pairs@.len(),
            nv_entries(l) == pairs_map(pairs_view(pairs@).subrange(0, i as int)),
        decreases pairs@.len() - i,
    {
        match nv_insert_string(&mut l, pairs[i].0.as_str(), pairs[i].1.as_str()) {
            Ok(()) => {},
            Err(_) => return Err(OptionsError::ListRefused),
        }
        assert(pairs_view(pairs@).subrange(0, i + 1).drop_last() =~= pairs_view(pairs@).subrange(0, i as int));
        assert(pairs_view(pairs@).subrange(0, i + 1).last() == (pairs@[i as int].0@, pairs@[i as int].1@));
        i += 1;
    }
    assert(pairs_view(pairs@).subrange(0, pairs@.len() as int) =~= pairs_view(pairs@));
    Ok(l)
}

proof fn lemma_extra_options_unreserved(opts: Seq<(String, String)>)
    ensures
        forall|i: int|
            0 <= i < extra_options(opts).len() ==> !is_reserved_option(#[trigger] extra_options(opts)[i].0),
    decreases opts.len(),
{
    if opts.len() > 0 {
        lemma_extra_options_unreserved(opts.drop_last());
        let rest = extra_options(opts.drop_last());
        let e = extra_options(opts);
        assert forall|i: int| 0 <= i < e.len() implies !is_reserved_option(#[trigger] e[i].0) by {
            if i < rest.len() {
                assert(e[i] == rest[i]);
            }
        }
    }
}

/// The backing file and the daemon's name come first, and no option of the
/// configuration takes either name after them.
pub proof fn lemma_reserved_options_not_shadowed(name: Seq<char>, lun: Lun)
    ensures
        backend_options(name, lun).len() >= 2,
        backend_options(name, lun)[0] == ("file"@, lun.path@),
        backend_options(name, lun)[1] == ("ctld_name"@, name),
        forall|i: int|
            2 <= i < backend_options(name, lun).len() ==> !is_reserved_option(
                #[trigger] backend_options(name, lun)[i].0,
            ),
{
    lemma_extra_options_unreserved(lun.options@);
    let b = backend_options(name, lun);
    assert forall|i: int| 2 <= i < b.len() implies !is_reserved_option(#[trigger] b[i].0) by {
        assert(b[i] == extra_options(lun.options@)[i - 2]);
    }
}


proof fn lemma_pairs_map_keeps(a: Seq<(Seq<char>, Seq<char>)>, b: Seq<(Seq<char>, Seq<char>)>, k: Seq<char>)
    requires
        pairs_map(a).contains_key(k),
        forall|i: int| 0 <= i < b.len() ==> (#[trigger] b[i]).0 != k,
    ensures
        pairs_map(a + b).contains_key(k),
        pairs_map(a + b)[k] == pairs_map(a)[k],
    decreases b.len(),
{
    if b.len() == 0 {
        assert(a + b =~= a);
    } else {
        let c = b.drop_last();
        assert forall|i: int| 0 <= i < c.len() implies (#[trigger] c[i]).0 != k by {
            assert(c[i] == b[i]);
        }
        lemma_pairs_map_keeps(a, c, k);
        assert((a + b).drop_last() =~= a + c);
        assert((a + b).last() == b.last());
    }
}

/// The options sent with a create request hold the backing file under
/// `file` and the daemon's name under `ctld_name`, whatever options the
/// configuration gives.
pub proof fn lemma_option_map_identity(name: Seq<char>, lun: Lun)
    ensures
        pairs_map(backend_options(name, lun)).contains_key("file"@),
        pairs_map(backend_options(name, lun))["file"@] == lun.path@,
        pairs_map(backend_options(name, lun)).contains_key("ctld_name"@),
        pairs_map(backend_options(name, lun))["ctld_name"@] == name,
{
    reveal_strlit("file");
    reveal_strlit("ctld_name");
    lemma_extra_options_unreserved(lun.options@);
    let head = seq![("file"@, lun.path@), ("ctld_name"@, name)];
    let extra = extra_options(lun.options@);
    assert(head.drop_last() =~= seq![("file"@, lun.path@)]);
    assert(seq![("file"@, lun.path@)].drop_last() =~= Seq::<(Seq<char>, Seq<char>)>::empty());
    assert("file"@.len() != "ctld_name"@.len());
    assert(head.last() == ("ctld_name"@, name));
    assert(seq![("file"@, lun.path@)].last() == ("file"@, lun.path@));
    assert(pairs_map(seq![("file"@, lun.path@)]) == pairs_map(Seq::<(Seq<char>, Seq<char>)>::empty()).insert(
        "file"@,
        lun.path@,
    ));
    assert(pairs_map(head)["file"@] == lun.path@);
    assert(pairs_map(head)["ctld_name"@] == name);
    assert forall|i: int| 0 <= i < extra.len() implies (#[trigger] extra[i]).0 != "file"@ && extra[i].0
        != "ctld_name"@ by {
        assert(!is_reserved_option(extra[i].0));
    }
    lemma_pairs_map_keeps(head, extra, "file"@);
    lemma_pairs_map_keeps(head, extra, "ctld_name"@);
}

} // verus!
