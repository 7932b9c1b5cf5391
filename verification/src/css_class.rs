//! CSS class lists: whitespace splitting and order-preserving deduplication.
use crate::index_set::{index_set_insert, index_set_into_vec, index_set_items, index_set_new, views};
use crate::text::{chars_of, is_white_space, white_space};
use vstd::prelude::*;

verus! {

/// A class list as configured: one whitespace-separated string, or a list of such strings.
#[derive(Debug, Clone)]
pub enum CssClass {
    Str(String),
    Vec(Vec<String>),
}

/// Splitting state after reading `s`: the words completed so far and the word being read.
pub open spec fn split_state(s: Seq<char>) -> (Seq<Seq<char>>, Seq<char>)
    decreases s.len(),
{
    if s.len() == 0 {
        (Seq::empty(), Seq::empty())
    } else {
        let prev = split_state(s.drop_last());
        let c = s.last();
        if is_white_space(c) {
            if prev.1.len() > 0 {
                (prev.0.push(prev.1), Seq::empty())
            } else {
                prev
            }
        } else {
            (prev.0, prev.1.push(c))
        }
    }
}

/// The maximal runs of non-whitespace characters of `s`, in order (`str::split_whitespace`).
pub open spec fn split_words(s: Seq<char>) -> Seq<Seq<char>> {
    let st = split_state(s);
    if st.1.len() > 0 {
        st.0.push(st.1)
    } else {
        st.0
    }
}

/// The words of every string of `ws`, one string after the other.
pub open spec fn flat_split(ws: Seq<Seq<char>>) -> Seq<Seq<char>>
    decreases ws.len(),
{
    if ws.len() == 0 {
        Seq::empty()
    } else {
        flat_split(ws.drop_last()) + split_words(ws.last())
    }
}

/// `s` with every item that occurred earlier removed: the first occurrences, in order.
pub open spec fn dedup<A>(s: Seq<A>) -> Seq<A>
    decreases s.len(),
{
    if s.len() == 0 {
        Seq::empty()
    } else {
        let d = dedup(s.drop_last());
        if d.contains(s.last()) {
            d
        } else {
            d.push(s.last())
        }
    }
}

/// A word of a class list: not empty and without whitespace.
pub open spec fn is_clean_word(w: Seq<char>) -> bool {
    w.len() > 0 && forall|i: int| 0 <= i < w.len() ==> !is_white_space(#[trigger] w[i])
}

/// The words of a class list, before deduplication.
pub open spec fn class_words(c: CssClass) -> Seq<Seq<char>> {
    match c {
        CssClass::Str(s) => split_words(s@),
        CssClass::Vec(v) => flat_split(views(v@)),
    }
}

/// The classes a class list stands for: its distinct words in order of first occurrence.
pub open spec fn class_list(c: CssClass) -> Seq<Seq<char>> {
    dedup(class_words(c))
}

/// Normalizing a list of strings: their distinct words, in order of first occurrence.
pub open spec fn normalize_words(ws: Seq<Seq<char>>) -> Seq<Seq<char>> {
    dedup(flat_split(ws))
}

/// `String::push`: appends one character.
#[verifier::external_body]
pub(crate) fn push_char(s: &mut String, c: char)
    ensures
        final(s)@ == old(s)@.push(c),
{
    s.push(c)
}

/// Appends the whitespace-separated words of `s` to `out`.
pub fn push_words(s: &str, out: &mut Vec<String>)
    ensures
        views(final(out)@) == views(old(out)@) + split_words(s@),
{
    let chars = chars_of(s);
    let ghost start = views(out@);
    let mut cur = String::new();
    let mut cur_len: usize = 0;
    let mut i: usize = 0;
    while i < chars.len()
        invariant
            chars@ == s@,
            0 <= i <= chars.len(),
            views(out@) == start + split_state(s@.take(i as int)).0,
            cur@ == split_state(s@.take(i as int)).1,
            cur_len == cur@.len(),
            cur_len <= i,
        decreases chars.len() - i,
    {
        let c = chars[i];
        assert(s@.take(i + 1).drop_last() == s@.take(i as int));
        assert(s@.take(i + 1).last() == c);
        if white_space(c) {
            if cur_len > 0 {
                let ghost before = out@;
                let ghost w = cur@;
                let word = cur;
                out.push(word);
                assert(views(out@) =~= views(before).push(w));
                assert(views(out@) =~= start + split_state(s@.take(i + 1)).0);
                cur = String::new();
                cur_len = 0;
            }
        } else {
            push_char(&mut cur, c);
            cur_len = cur_len + 1;
        }
        i = i + 1;
    }
    assert(s@.take(chars.len() as int) == s@);
    if cur_len > 0 {
        let ghost before = out@;
        let ghost w = cur@;
        out.push(cur);
        assert(views(out@) =~= views(before).push(w));
        assert(views(out@) =~= start + split_words(s@));
    }
}


/// The first occurrences of `words`, in order, by way of an `IndexSet`.
pub fn unique_words(words: Vec<String>) -> (out: Vec<String>)
    ensures
        views(out@) == dedup(views(words@)),
{
    let mut set = index_set_new();
    let mut i: usize = 0;
    while i < words.len()
        invariant
            0 <= i <= words.len(),
            index_set_items(set) == dedup(views(words@).take(i as int)),
        decreases words.len() - i,
    {
        let w = words[i].clone();
        assert(views(words@).take(i + 1).drop_last() =~= views(words@).take(i as int));
        assert(views(words@).take(i + 1).last() == words@[i as int]@);
        let _ = index_set_insert(&mut set, w);
        i = i + 1;
    }
    assert(views(words@).take(words.len() as int) =~= views(words@));
    index_set_into_vec(set)
}

impl CssClass {
    /// The classes of this list: its whitespace-separated words, each once, in order
    /// of first occurrence.
    pub fn into_classes(self) -> (out: Vec<String>)
        ensures
            views(out@) == class_list(self),
    {
        let mut words: Vec<String> = Vec::new();
        match self {
            CssClass::Str(s) => {
                push_words(s.as_str(), &mut words);
                assert(views(words@) =~= split_words(s@));
            },
            CssClass::Vec(v) => {
                let mut i: usize = 0;
                while i < v.len()
                    invariant
                        0 <= i <= v.len(),
                        views(words@) == flat_split(views(v@).take(i as int)),
                    decreases v.len() - i,
                {
                    assert(views(v@).take(i + 1).drop_last() =~= views(v@).take(i as int));
                    assert(views(v@).take(i + 1).last() == v@[i as int]@);
                    push_words(v[i].as_str(), &mut words);
                    i = i + 1;
                }
                assert(views(v@).take(v.len() as int) =~= views(v@));
            },
        }
        unique_words(words)
    }
}

impl Default for CssClass {
    /// An empty list.
    fn default() -> (c: Self)
        ensures
            c matches CssClass::Vec(v) && v@.len() == 0,
            class_list(c) == Seq::<Seq<char>>::empty(),
    {
        let v: Vec<String> = Vec::new();
        assert(views(v@) =~= Seq::<Seq<char>>::empty());
        CssClass::Vec(v)
    }
}

/// What can stand first in a class list: one class name or several.
pub trait IntoPrepend: Sized {
    /// The class names this value stands for, in order.
    spec fn prepend_view(&self) -> Seq<Seq<char>>;

    /// The class names this value stands for.
    fn into_prepend(self) -> (v: Vec<String>)
        ensures
            views(v@) == self.prepend_view(),
    ;
}

impl IntoPrepend for &str {
    open spec fn prepend_view(&self) -> Seq<Seq<char>> {
        seq![(*self)@]
    }

    fn into_prepend(self) -> (v: Vec<String>) {
        let s = self.to_string();
        proof {
            vstd::string::to_string_from_display_ensures_for_str(self, s);
        }
        let mut v: Vec<String> = Vec::new();
        v.push(s);
        assert(views(v@) =~= seq![self@]);
        v
    }
}

impl IntoPrepend for Vec<String> {
    open spec fn prepend_view(&self) -> Seq<Seq<char>> {
        views(self@)
    }

    fn into_prepend(self) -> (v: Vec<String>) {
        self
    }
}

/// The class names that `prepend` stands for, as a list.
pub fn normalize_prepend<P: IntoPrepend>(prepend: P) -> (v: Vec<String>)
    ensures
        views(v@) == prepend.prepend_view(),
{
    prepend.into_prepend()
}

/// The classes `prepend` followed by `classes`, each once, in order of first occurrence.
pub fn prepend_css_class<P: IntoPrepend>(prepend: P, classes: Vec<String>) -> (out: Vec<String>)
    ensures
        views(out@) == dedup(prepend.prepend_view() + views(classes@)),
{
    let mut all = normalize_prepend(prepend);
    let ghost first = views(all@);
    let mut i: usize = 0;
    while i < classes.len()
        invariant
            0 <= i <= classes.len(),
            views(all@) == first + views(classes@).take(i as int),
        decreases classes.len() - i,
    {
        let ghost before = all@;
        all.push(classes[i].clone());
        assert(views(all@) =~= views(before).push(classes@[i as int]@));
        assert(views(classes@).take(i + 1) =~= views(classes@).take(i as int).push(
            classes@[i as int]@,
        ));
        i = i + 1;
    }
    assert(views(classes@).take(classes.len() as int) =~= views(classes@));
    unique_words(all)
}

/// The classes `prepend` followed by the classes of the list `class`, each once, in order
/// of first occurrence.
pub fn prepend_css_class_list<P: IntoPrepend>(prepend: P, class: CssClass) -> (out: Vec<String>)
    ensures
        views(out@) == dedup(prepend.prepend_view() + class_words(class)),
{
    let classes = class.into_classes();
    let out = prepend_css_class(prepend, classes);
    proof {
        lemma_dedup_prefix_stable(prepend.prepend_view(), class_words(class));
    }
    out
}

/// An item occurs in `s.push(a)` exactly when it occurs in `s` or is `a`.
pub proof fn lemma_push_contains<A>(s: Seq<A>, a: A, x: A)
    ensures
        s.push(a).contains(x) <==> (s.contains(x) || x == a),
{
    if s.contains(x) {
        let j = choose|j: int| 0 <= j < s.len() && s[j] == x;
        assert(s.push(a)[j] == x);
    }
    if x == a {
        assert(s.push(a)[s.len() as int] == x);
    }
    if s.push(a).contains(x) {
        let j = choose|j: int| 0 <= j < s.push(a).len() && s.push(a)[j] == x;
        if j < s.len() {
            assert(s[j] == x);
        }
    }
}

/// Every item of `dedup(s)` occurs in `s`, and every item of `s` occurs in `dedup(s)`.
pub proof fn lemma_dedup_contains<A>(s: Seq<A>)
    ensures
        forall|x: A| #[trigger] dedup(s).contains(x) <==> s.contains(x),
    decreases s.len(),
{
    if s.len() > 0 {
        let p = s.drop_last();
        let l = s.last();
        lemma_dedup_contains(p);
        assert(p.push(l) =~= s);
        assert forall|x: A| #[trigger] dedup(s).contains(x) <==> s.contains(x) by {
            lemma_push_contains(p, l, x);
            lemma_push_contains(dedup(p), l, x);
            lemma_push_contains(p, l, l);
        }
    }
}

/// `dedup(s)` holds no item twice.
pub proof fn lemma_dedup_no_duplicates<A>(s: Seq<A>)
    ensures
        dedup(s).no_duplicates(),
    decreases s.len(),
{
    if s.len() > 0 {
        lemma_dedup_no_duplicates(s.drop_last());
    }
}

/// A sequence that holds no item twice is its own deduplication.
pub proof fn lemma_dedup_of_distinct<A>(s: Seq<A>)
    requires
        s.no_duplicates(),
    ensures
        dedup(s) == s,
    decreases s.len(),
{
    if s.len() > 0 {
        assert(s.drop_last().no_duplicates());
        lemma_dedup_of_distinct(s.drop_last());
        assert(!s.drop_last().contains(s.last())) by {
            if s.drop_last().contains(s.last()) {
                let j = choose|j: int| 0 <= j < s.drop_last().len() && s.drop_last()[j] == s.last();
                assert(s[j] == s[s.len() - 1]);
            }
        }
        assert(s.drop_last().push(s.last()) =~= s);
    }
}

/// The completed words of a split are words of a class list, and the word being read has
/// no whitespace.
proof fn lemma_split_state_clean(s: Seq<char>)
    ensures
        forall|i: int| 0 <= i < split_state(s).0.len() ==> is_clean_word(#[trigger] split_state(s).0[i]),
        forall|i: int| 0 <= i < split_state(s).1.len() ==> !is_white_space(#[trigger] split_state(s).1[i]),
    decreases s.len(),
{
    if s.len() > 0 {
        let prev = split_state(s.drop_last());
        let c = s.last();
        lemma_split_state_clean(s.drop_last());
        let cur = split_state(s);
        if is_white_space(c) {
            if prev.1.len() > 0 {
                assert forall|i: int| 0 <= i < cur.0.len() implies is_clean_word(#[trigger] cur.0[i]) by {
                    if i < prev.0.len() {
                        assert(cur.0[i] == prev.0[i]);
                    } else {
                        assert(cur.0[i] == prev.1);
                        assert forall|k: int| 0 <= k < prev.1.len() implies !is_white_space(
                            #[trigger] prev.1[k],
                        ) by {}
                    }
                }
            }
        } else {
            assert forall|i: int| 0 <= i < cur.1.len() implies !is_white_space(#[trigger] cur.1[i]) by {
                if i < prev.1.len() {
                    assert(cur.1[i] == prev.1[i]);
                } else {
                    assert(cur.1[i] == c);
                }
            }
        }
    }
}

/// Every word of a split is non-empty and free of whitespace.
pub proof fn lemma_split_words_clean(s: Seq<char>)
    ensures
        forall|i: int| 0 <= i < split_words(s).len() ==> is_clean_word(#[trigger] split_words(s)[i]),
{
    lemma_split_state_clean(s);
}

/// Splitting a word that is already a single class gives that word back.
pub proof fn lemma_split_clean_word(w: Seq<char>)
    requires
        is_clean_word(w),
    ensures
        split_words(w) == seq![w],
{
    assert forall|k: int| 0 <= k <= w.len() implies #[trigger] split_state(w.take(k)) == (
    Seq::<Seq<char>>::empty(), w.take(k)) by {
        lemma_split_prefix(w, k);
    }
    assert(w.take(w.len() as int) =~= w);
}

proof fn lemma_split_prefix(w: Seq<char>, k: int)
    requires
        is_clean_word(w),
        0 <= k <= w.len(),
    ensures
        split_state(w.take(k)) == (Seq::<Seq<char>>::empty(), w.take(k)),
    decreases k,
{
    if k > 0 {
        lemma_split_prefix(w, k - 1);
        assert(w.take(k).drop_last() =~= w.take(k - 1));
        assert(w.take(k - 1).push(w[k - 1]) =~= w.take(k));
        assert(!is_white_space(w[k - 1]));
    } else {
        assert(w.take(0) =~= Seq::<char>::empty());
    }
}

/// Splitting a list of single classes gives the list back.
pub proof fn lemma_flat_split_clean(ws: Seq<Seq<char>>)
    requires
        forall|i: int| 0 <= i < ws.len() ==> is_clean_word(#[trigger] ws[i]),
    ensures
        flat_split(ws) == ws,
    decreases ws.len(),
{
    if ws.len() > 0 {
        lemma_flat_split_clean(ws.drop_last());
        lemma_split_clean_word(ws.last());
        assert(ws.drop_last() + seq![ws.last()] =~= ws);
    }
}

/// Every word of a flattened split is a single class.
pub proof fn lemma_flat_split_words_clean(ws: Seq<Seq<char>>)
    ensures
        forall|i: int| 0 <= i < flat_split(ws).len() ==> is_clean_word(#[trigger] flat_split(ws)[i]),
    decreases ws.len(),
{
    if ws.len() > 0 {
        lemma_flat_split_words_clean(ws.drop_last());
        lemma_split_words_clean(ws.last());
        let a = flat_split(ws.drop_last());
        let b = split_words(ws.last());
        assert forall|i: int| 0 <= i < flat_split(ws).len() implies is_clean_word(
            #[trigger] flat_split(ws)[i],
        ) by {
            if i < a.len() {
                assert(flat_split(ws)[i] == a[i]);
            } else {
                assert(flat_split(ws)[i] == b[i - a.len()]);
            }
        }
    }
}

/// The classes of a normalized list are single classes and occur once each.
pub proof fn lemma_normalized_is_clean(ws: Seq<Seq<char>>)
    ensures
        normalize_words(ws).no_duplicates(),
        forall|i: int| 0 <= i < normalize_words(ws).len() ==> is_clean_word(#[trigger] normalize_words(ws)[i]),
{
    lemma_dedup_no_duplicates(flat_split(ws));
    lemma_dedup_contains(flat_split(ws));
    lemma_flat_split_words_clean(ws);
    let n = normalize_words(ws);
    assert forall|i: int| 0 <= i < n.len() implies is_clean_word(#[trigger] n[i]) by {
        assert(n.contains(n[i]));
        assert(flat_split(ws).contains(n[i]));
        let j = choose|j: int| 0 <= j < flat_split(ws).len() && flat_split(ws)[j] == n[i];
        assert(is_clean_word(flat_split(ws)[j]));
    }
}

/// Normalizing a class list twice gives what normalizing it once gives: the classes a
/// list stands for, handed back as a list, stand for themselves.
pub proof fn law_normalize_idempotent(ws: Seq<Seq<char>>)
    ensures
        normalize_words(normalize_words(ws)) == normalize_words(ws),
{
    let n = normalize_words(ws);
    lemma_normalized_is_clean(ws);
    lemma_flat_split_clean(n);
    lemma_dedup_of_distinct(n);
}

/// The classes of a whitespace-separated string, handed back as a list, stand for themselves.
pub proof fn law_string_classes_stable(s: Seq<char>)
    ensures
        normalize_words(dedup(split_words(s))) == dedup(split_words(s)),
{
    let d = dedup(split_words(s));
    lemma_split_words_clean(s);
    lemma_dedup_contains(split_words(s));
    lemma_dedup_no_duplicates(split_words(s));
    assert forall|i: int| 0 <= i < d.len() implies is_clean_word(#[trigger] d[i]) by {
        assert(d.contains(d[i]));
        let j = choose|j: int| 0 <= j < split_words(s).len() && split_words(s)[j] == d[i];
        assert(is_clean_word(split_words(s)[j]));
    }
    lemma_flat_split_clean(d);
    lemma_dedup_of_distinct(d);
}

/// Deduplicating the tail of a sequence before deduplicating the whole changes nothing.
pub proof fn lemma_dedup_prefix_stable<A>(p: Seq<A>, t: Seq<A>)
    ensures
        dedup(p + dedup(t)) == dedup(p + t),
    decreases t.len(),
{
    if t.len() > 0 {
        let tp = t.drop_last();
        let l = t.last();
        lemma_dedup_prefix_stable(p, tp);
        assert((p + t).drop_last() =~= p + tp);
        assert((p + t).last() == l);
        lemma_dedup_contains(p + tp);
        lemma_dedup_contains(p + dedup(tp));
        lemma_dedup_contains(tp);
        if dedup(tp).contains(l) {
            assert(dedup(t) == dedup(tp));
            // l occurs in p + tp, so appending it changes nothing
            let j = choose|j: int| 0 <= j < tp.len() && tp[j] == l;
            assert((p + tp)[p.len() + j] == l);
            assert(dedup(p + tp).contains(l));
        } else {
            assert(dedup(t) == dedup(tp).push(l));
            assert((p + dedup(t)) =~= (p + dedup(tp)).push(l));
            assert((p + dedup(t)).drop_last() =~= p + dedup(tp));
            lemma_push_contains(p, l, l);
            if dedup(p + tp).contains(l) {
            } else {
            }
            assert(dedup(p + dedup(t)) == (if dedup(p + dedup(tp)).contains(l) {
                dedup(p + dedup(tp))
            } else {
                dedup(p + dedup(tp)).push(l)
            }));
        }
    } else {
        assert(dedup(t) =~= t);
    }
}

/// The first item of a non-empty sequence is the first item of its deduplication.
pub proof fn lemma_dedup_first<A>(s: Seq<A>)
    requires
        s.len() > 0,
    ensures
        dedup(s).len() > 0,
        dedup(s)[0] == s[0],
    decreases s.len(),
{
    if s.len() > 1 {
        lemma_dedup_first(s.drop_last());
        let d = dedup(s.drop_last());
        assert(d.push(s.last())[0] == d[0]);
        assert(s.drop_last()[0] == s[0]);
    } else {
        assert(s.drop_last() =~= Seq::<A>::empty());
        assert(dedup(s.drop_last()) =~= Seq::<A>::empty());
        assert(!dedup(s.drop_last()).contains(s.last()));
        assert(dedup(s)[0] == s.last());
    }
}

/// The class put in front of a list comes first in the result, whatever the list holds.
pub proof fn law_prepended_class_first(prepend: Seq<Seq<char>>, classes: Seq<Seq<char>>)
    requires
        prepend.len() > 0,
    ensures
        dedup(prepend + classes).len() > 0,
        dedup(prepend + classes)[0] == prepend[0],
{
    lemma_dedup_first(prepend + classes);
}

/// Prepending keeps every class of both parts and holds none twice.
pub proof fn law_prepend_keeps_all(prepend: Seq<Seq<char>>, classes: Seq<Seq<char>>)
    ensures
        dedup(prepend + classes).no_duplicates(),
        forall|c: Seq<char>| #[trigger] dedup(prepend + classes).contains(c) <==> (prepend.contains(c)
            || classes.contains(c)),
{
    lemma_dedup_no_duplicates(prepend + classes);
    lemma_dedup_contains(prepend + classes);
    assert forall|c: Seq<char>| #[trigger] dedup(prepend + classes).contains(c) <==> (
    prepend.contains(c) || classes.contains(c)) by {
        if prepend.contains(c) {
            let j = choose|j: int| 0 <= j < prepend.len() && prepend[j] == c;
            assert((prepend + classes)[j] == c);
        }
        if classes.contains(c) {
            let j = choose|j: int| 0 <= j < classes.len() && classes[j] == c;
            assert((prepend + classes)[prepend.len() + j] == c);
        }
        if (prepend + classes).contains(c) {
            let j = choose|j: int| 0 <= j < (prepend + classes).len() && (prepend + classes)[j] == c;
            if j < prepend.len() {
                assert(prepend[j] == c);
            } else {
                assert(classes[j - prepend.len()] == c);
            }
        }
    }
}

} // verus!
