//! A YAML document tree (the shape mihomo configurations are read into)
//! with its mathematical view, and insertion into mappings, which keep the
//! order of their keys and replace the value of a key that is already there.
use vstd::prelude::*;
use crate::text::{chars_of, owned, views};

verus! {

/// A YAML value. Numbers are held as the text YAML writes them.
pub enum YamlValue {
    Null,
    Bool(bool),
    Number(String),
    Str(String),
    List(Vec<YamlValue>),
    Mapping(Vec<(YamlValue, YamlValue)>),
    Tagged(String, Box<YamlValue>),
}

/// The mathematical value of a `YamlValue`.
pub enum YamlView {
    Null,
    Bool(bool),
    Number(Seq<char>),
    Str(Seq<char>),
    List(Seq<YamlView>),
    Mapping(Seq<(YamlView, YamlView)>),
    Tagged(Seq<char>, Box<YamlView>),
}

pub open spec fn yaml_view(y: YamlValue) -> YamlView
    decreases y,
{
    match y {
        YamlValue::Null => YamlView::Null,
        YamlValue::Bool(b) => YamlView::Bool(b),
        YamlValue::Number(n) => YamlView::Number(n@),
        YamlValue::Str(s) => YamlView::Str(s@),
        YamlValue::List(v) => {
            proof {
                assert forall|i: int| 0 <= i < v@.len() implies decreases_to!(y => v@[i]) by {
                    assert(decreases_to!(y => v));
                    assert(decreases_to!(v => v@));
                    assert(decreases_to!(v@ => v@[i]));
                }
            }
            YamlView::List(
                Seq::new(
                    v@.len(),
                    |i: int|
                        if 0 <= i < v@.len() {
                            yaml_view(v@[i])
                        } else {
                            YamlView::Null
                        },
                ),
            )
        },
        YamlValue::Mapping(v) => {
            proof {
                assert forall|i: int| 0 <= i < v@.len() implies decreases_to!(y => v@[i].0)
                    && decreases_to!(y => v@[i].1) by {
                    assert(decreases_to!(y => v));
                    assert(decreases_to!(v => v@));
                    assert(decreases_to!(v@ => v@[i]));
                    assert(decreases_to!(v@[i] => v@[i].0));
                    assert(decreases_to!(v@[i] => v@[i].1));
                }
            }
            YamlView::Mapping(
                Seq::new(
                    v@.len(),
                    |i: int|
                        if 0 <= i < v@.len() {
                            (yaml_view(v@[i].0), yaml_view(v@[i].1))
                        } else {
                            (YamlView::Null, YamlView::Null)
                        },
                ),
            )
        },
        YamlValue::Tagged(t, b) => YamlView::Tagged(t@, Box::new(yaml_view(*b))),
    }
}

impl View for YamlValue {
    type V = YamlView;

    open spec fn view(&self) -> YamlView {
        yaml_view(*self)
    }
}

/// The views of the entries of a mapping.
pub open spec fn entries_view(e: Seq<(YamlValue, YamlValue)>) -> Seq<(YamlView, YamlView)> {
    Seq::new(e.len(), |i: int| (e[i].0@, e[i].1@))
}

pub proof fn lemma_mapping_view(e: Vec<(YamlValue, YamlValue)>)
    ensures
        YamlValue::Mapping(e)@ == YamlView::Mapping(entries_view(e@)),
{
    assert(YamlValue::Mapping(e)@->Mapping_0 =~= entries_view(e@));
}

/// The views of the items of a list.
pub open spec fn items_view(v: Seq<YamlValue>) -> Seq<YamlView> {
    Seq::new(v.len(), |i: int| v[i]@)
}

pub proof fn lemma_list_view(v: Vec<YamlValue>)
    ensures
        YamlValue::List(v)@ == YamlView::List(items_view(v@)),
{
    assert(YamlValue::List(v)@->List_0 =~= items_view(v@));
}

/// A YAML string holding `s`.
pub fn ystr(s: &str) -> (r: YamlValue)
    ensures
        r@ == YamlView::Str(s@),
{
    YamlValue::Str(owned(s))
}

/// A YAML number written as `s`.
pub fn ynum(s: &str) -> (r: YamlValue)
    ensures
        r@ == YamlView::Number(s@),
{
    YamlValue::Number(owned(s))
}

/// A YAML list of the given items.
pub fn ylist(v: Vec<YamlValue>) -> (r: YamlValue)
    ensures
        r@ == YamlView::List(items_view(v@)),
{
    proof {
        lemma_list_view(v);
    }
    YamlValue::List(v)
}

/// A YAML mapping of the given entries.
pub fn ymap(e: Vec<(YamlValue, YamlValue)>) -> (r: YamlValue)
    ensures
        r@ == YamlView::Mapping(entries_view(e@)),
{
    proof {
        lemma_mapping_view(e);
    }
    YamlValue::Mapping(e)
}

/// The value under all of its tags.
pub open spec fn untag(v: YamlView) -> YamlView
    decreases v,
{
    match v {
        YamlView::Tagged(_, b) => untag(*b),
        _ => v,
    }
}

/// The tags of a value, outermost first.
pub open spec fn tags_of(v: YamlView) -> Seq<Seq<char>>
    decreases v,
{
    match v {
        YamlView::Tagged(t, b) => seq![t] + tags_of(*b),
        _ => seq![],
    }
}

/// `inner` under the tags `tags`, outermost first.
pub open spec fn wrap_tags(tags: Seq<Seq<char>>, inner: YamlView) -> YamlView
    decreases tags.len(),
{
    if tags.len() == 0 {
        inner
    } else {
        YamlView::Tagged(tags[0], Box::new(wrap_tags(tags.drop_first(), inner)))
    }
}

/// `v` with the value under its tags replaced by `inner`.
pub open spec fn with_untagged(v: YamlView, inner: YamlView) -> YamlView {
    wrap_tags(tags_of(v), inner)
}

/// A value that is no tag.
pub open spec fn untagged(v: YamlView) -> bool {
    !(v is Tagged)
}

pub proof fn lemma_untag_wrap(tags: Seq<Seq<char>>, inner: YamlView)
    requires
        untagged(inner),
    ensures
        untag(wrap_tags(tags, inner)) == inner,
        tags_of(wrap_tags(tags, inner)) == tags,
    decreases tags.len(),
{
    if tags.len() == 0 {
        assert(tags =~= seq![]);
    } else {
        lemma_untag_wrap(tags.drop_first(), inner);
        assert(seq![tags[0]] + tags.drop_first() =~= tags);
    }
}

pub proof fn lemma_untag_is_untagged(v: YamlView)
    ensures
        untagged(untag(v)),
        wrap_tags(tags_of(v), untag(v)) == v,
    decreases v,
{
    match v {
        YamlView::Tagged(t, b) => {
            lemma_untag_is_untagged(*b);
            let ts = tags_of(v);
            assert(ts.drop_first() =~= tags_of(*b));
        },
        _ => {},
    }
}

/// The index of the first entry whose key is `k`, or -1 when there is none.
pub open spec fn find_key(e: Seq<(YamlView, YamlView)>, k: YamlView) -> int
    decreases e.len(),
{
    if e.len() == 0 {
        -1
    } else if e[0].0 == k {
        0
    } else {
        let r = find_key(e.drop_first(), k);
        if r < 0 {
            -1
        } else {
            r + 1
        }
    }
}

pub proof fn lemma_find_key(e: Seq<(YamlView, YamlView)>, k: YamlView)
    ensures
        -1 <= find_key(e, k) < e.len(),
        find_key(e, k) >= 0 ==> e[find_key(e, k)].0 == k,
        forall|j: int| 0 <= j < find_key(e, k) ==> #[trigger] e[j].0 != k,
        find_key(e, k) < 0 ==> forall|j: int| 0 <= j < e.len() ==> #[trigger] e[j].0 != k,
    decreases e.len(),
{
    if e.len() > 0 && e[0].0 != k {
        let t = e.drop_first();
        lemma_find_key(t, k);
        assert forall|j: int| 1 <= j < e.len() implies #[trigger] e[j] == t[j - 1] by {}
    }
}

/// `find_key` is determined by the first index holding `k`.
pub proof fn lemma_find_key_at(e: Seq<(YamlView, YamlView)>, k: YamlView, i: int)
    requires
        0 <= i < e.len(),
        e[i].0 == k,
        forall|j: int| 0 <= j < i ==> #[trigger] e[j].0 != k,
    ensures
        find_key(e, k) == i,
{
    lemma_find_key(e, k);
    if find_key(e, k) < 0 {
        assert(e[i].0 != k);
    }
}

/// `find_key` is -1 when no key is `k`.
pub proof fn lemma_find_key_none(e: Seq<(YamlView, YamlView)>, k: YamlView)
    requires
        forall|j: int| 0 <= j < e.len() ==> #[trigger] e[j].0 != k,
    ensures
        find_key(e, k) == -1,
{
    lemma_find_key(e, k);
    if find_key(e, k) >= 0 {
        assert(e[find_key(e, k)].0 != k);
    }
}

/// Inserting `k: v` into the entries of a mapping: the value of an existing
/// key is replaced in place, a new key goes last.
pub open spec fn map_insert(e: Seq<(YamlView, YamlView)>, k: YamlView, v: YamlView) -> Seq<
    (YamlView, YamlView),
> {
    let i = find_key(e, k);
    if i >= 0 {
        e.update(i, (k, v))
    } else {
        e.push((k, v))
    }
}

/// The value under key `k`, if any.
pub open spec fn map_get(e: Seq<(YamlView, YamlView)>, k: YamlView) -> Option<YamlView> {
    let i = find_key(e, k);
    if i >= 0 {
        Some(e[i].1)
    } else {
        None
    }
}

/// The key `s` as a YAML string.
pub open spec fn skey(s: Seq<char>) -> YamlView {
    YamlView::Str(s)
}

/// The index of the entry whose key is the string `key`, if any.
pub fn find_str_key(e: &Vec<(YamlValue, YamlValue)>, key: &str) -> (r: Option<usize>)
    ensures
        match r {
            Some(i) => find_key(entries_view(e@), skey(key@)) == i,
            None => find_key(entries_view(e@), skey(key@)) == -1,
        },
{
    let ghost ev = entries_view(e@);
    let n = e.len();
    let mut i: usize = 0;
    while i < n
        invariant
            n == e@.len(),
            ev == entries_view(e@),
            i <= n,
            forall|j: int| 0 <= j < i ==> #[trigger] ev[j].0 != skey(key@),
        decreases n - i,
    {
        let hit = match &e[i].0 {
            YamlValue::Str(s) => str_eq(s.as_str(), key),
            _ => false,
        };
        if hit {
            proof {
                lemma_find_key_at(ev, skey(key@), i as int);
            }
            return Some(i);
        }
        i = i + 1;
    }
    proof {
        lemma_find_key_none(ev, skey(key@));
    }
    None
}

/// Sets the string key `key` of a mapping to `value`, as `Mapping::insert` does.
pub fn mapping_insert(e: &mut Vec<(YamlValue, YamlValue)>, key: &str, value: YamlValue)
    ensures
        entries_view(final(e)@) == map_insert(entries_view(old(e)@), skey(key@), value@),
{
    let k = YamlValue::Str(owned(key));
    assert(k@ == skey(key@));
    match find_str_key(e, key) {
        Some(i) => {
            proof {
                lemma_find_key(entries_view(e@), skey(key@));
            }
            e.set(i, (k, value));
            assert(entries_view(e@) =~= entries_view(old(e)@).update(
                i as int,
                (skey(key@), value@),
            ));
        },
        None => {
            e.push((k, value));
            assert(entries_view(e@) =~= entries_view(old(e)@).push((skey(key@), value@)));
        },
    }
}

/// Splits a value into its tags, outermost first, and the value under them.
pub fn untag_value(v: YamlValue) -> (r: (Vec<String>, YamlValue))
    ensures
        views(r.0@) == tags_of(v@),
        r.1@ == untag(v@),
    decreases v,
{
    match v {
        YamlValue::Tagged(t, b) => {
            let ghost bv = (*b)@;
            let (rest, inner) = untag_value(*b);
            let mut tags: Vec<String> = Vec::new();
            tags.push(t);
            let mut i: usize = 0;
            let n = rest.len();
            while i < n
                invariant
                    n == rest@.len(),
                    i <= n,
                    tags@.len() == i + 1,
                    tags@[0]@ == t@,
                    forall|j: int| 0 <= j < i ==> #[trigger] tags@[j + 1]@ == rest@[j]@,
                decreases n - i,
            {
                tags.push(rest[i].clone());
                i = i + 1;
            }
            assert forall|j: int| 0 <= j < views(tags@).len() implies #[trigger] views(tags@)[j]
                == (seq![t@] + views(rest@))[j] by {
                if j > 0 {
                    assert(tags@[(j - 1) + 1]@ == rest@[j - 1]@);
                }
            }
            assert(views(tags@) =~= seq![t@] + views(rest@));
            (tags, inner)
        },
        _ => (Vec::new(), v),
    }
}

/// Puts `inner` back under the tags `tags`, outermost first.
pub fn retag(tags: &Vec<String>, inner: YamlValue) -> (r: YamlValue)
    ensures
        r@ == wrap_tags(views(tags@), inner@),
{
    let mut r = inner;
    let mut i: usize = tags.len();
    while i > 0
        invariant
            i <= tags@.len(),
            r@ == wrap_tags(views(tags@).skip(i as int), inner@),
        decreases i,
    {
        i = i - 1;
        let ghost prev = views(tags@).skip(i + 1);
        r = YamlValue::Tagged(tags[i].clone(), Box::new(r));
        proof {
            let now = views(tags@).skip(i as int);
            assert(now.drop_first() =~= prev);
            assert(now[0] == tags@[i as int]@);
        }
    }
    assert(views(tags@).skip(0) =~= views(tags@));
    r
}

/// Whether two strings hold the same characters.
pub fn str_eq(a: &str, b: &str) -> (r: bool)
    ensures
        r == (a@ == b@),
{
    let va = chars_of(a);
    let vb = chars_of(b);
    if va.len() != vb.len() {
        return false;
    }
    let n = va.len();
    let mut i: usize = 0;
    while i < n
        invariant
            n == va@.len(),
            n == vb@.len(),
            va@ == a@,
            vb@ == b@,
            i <= n,
            forall|j: int| 0 <= j < i ==> va@[j] == vb@[j],
        decreases n - i,
    {
        if va[i] != vb[i] {
            return false;
        }
        i = i + 1;
    }
    assert(va@ =~= vb@);
    true
}

/// No two entries of a mapping have the same key.
pub open spec fn keys_unique(e: Seq<(YamlView, YamlView)>) -> bool {
    forall|i: int, j: int| 0 <= i < j < e.len() ==> #[trigger] e[i].0 != #[trigger] e[j].0
}

/// A YAML value as a parser gives it: in every mapping, at any depth, no
/// key occurs twice.
pub open spec fn yaml_wf(v: YamlView) -> bool
    decreases v,
{
    match v {
        YamlView::List(s) => {
            proof {
                assert forall|i: int| 0 <= i < s.len() implies decreases_to!(v => s[i]) by {
                    assert(decreases_to!(v => s));
                    assert(decreases_to!(s => s[i]));
                }
            }
            forall|i: int| 0 <= i < s.len() ==> yaml_wf(#[trigger] s[i])
        },
        YamlView::Mapping(e) => {
            proof {
                assert forall|i: int| 0 <= i < e.len() implies decreases_to!(v => e[i].0)
                    && decreases_to!(v => e[i].1) by {
                    assert(decreases_to!(v => e));
                    assert(decreases_to!(e => e[i]));
                    assert(decreases_to!(e[i] => e[i].0));
                    assert(decreases_to!(e[i] => e[i].1));
                }
            }
            &&& keys_unique(e)
            &&& forall|i: int| 0 <= i < e.len() ==> yaml_wf(#[trigger] e[i].0) && yaml_wf(e[i].1)
        },
        YamlView::Tagged(_, b) => yaml_wf(*b),
        _ => true,
    }
}

/// The entries of a mapping are all well formed and have distinct keys.
pub open spec fn entries_wf(e: Seq<(YamlView, YamlView)>) -> bool {
    &&& keys_unique(e)
    &&& forall|i: int| 0 <= i < e.len() ==> yaml_wf(#[trigger] e[i].0) && yaml_wf(e[i].1)
}

pub proof fn lemma_mapping_wf(e: Seq<(YamlView, YamlView)>)
    ensures
        yaml_wf(YamlView::Mapping(e)) == entries_wf(e),
{
}

pub proof fn lemma_tags_wf(tags: Seq<Seq<char>>, inner: YamlView)
    ensures
        yaml_wf(wrap_tags(tags, inner)) == yaml_wf(inner),
    decreases tags.len(),
{
    if tags.len() > 0 {
        lemma_tags_wf(tags.drop_first(), inner);
    }
}

pub proof fn lemma_untag_wf(v: YamlView)
    ensures
        yaml_wf(untag(v)) == yaml_wf(v),
    decreases v,
{
    match v {
        YamlView::Tagged(_, b) => lemma_untag_wf(*b),
        _ => {},
    }
}

/// Inserting a well-formed key and value keeps the entries well formed.
pub proof fn lemma_insert_wf(e: Seq<(YamlView, YamlView)>, k: YamlView, v: YamlView)
    requires
        entries_wf(e),
        yaml_wf(k),
        yaml_wf(v),
    ensures
        entries_wf(map_insert(e, k, v)),
{
    lemma_find_key(e, k);
    let i = find_key(e, k);
    let e2 = map_insert(e, k, v);
    if i >= 0 {
        assert forall|a: int, b: int| 0 <= a < b < e2.len() implies #[trigger] e2[a].0 != #[trigger] e2[b].0 by {
            assert(e2[a].0 == e[a].0);
            assert(e2[b].0 == e[b].0);
        }
    } else {
        assert forall|a: int, b: int| 0 <= a < b < e2.len() implies #[trigger] e2[a].0 != #[trigger] e2[b].0 by {
            if b == e.len() {
                assert(e[a].0 != k);
            } else {
                assert(e2[a] == e[a]);
                assert(e2[b] == e[b]);
            }
        }
    }
    assert forall|a: int| 0 <= a < e2.len() implies yaml_wf(#[trigger] e2[a].0) && yaml_wf(e2[a].1) by {
        if a < e.len() && a != i {
            assert(e2[a] == e[a]);
        }
    }
}

} // verus!
