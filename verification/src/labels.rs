//! Content labels and filtering them by viewer preference.

use vstd::prelude::*;
use crate::text::str_eq;

verus! {

broadcast use vstd::string::group_string_axioms;

/// A label, as `com.atproto.label.defs` defines it.
#[derive(Debug)]
pub struct Label {
    pub src: String,
    pub uri: String,
    pub cid: Option<String>,
    pub val: String,
    pub neg: bool,
    pub cts: String,
}

/// The contents of a label.
pub struct LabelView {
    pub src: Seq<char>,
    pub uri: Seq<char>,
    pub cid: Option<Seq<char>>,
    pub val: Seq<char>,
    pub neg: bool,
    pub cts: Seq<char>,
}

impl View for Label {
    type V = LabelView;

    open spec fn view(&self) -> LabelView {
        LabelView {
            src: self.src@,
            uri: self.uri@,
            cid: match self.cid {
                Some(c) => Some(c@),
                None => None,
            },
            val: self.val@,
            neg: self.neg,
            cts: self.cts@,
        }
    }
}

impl Label {
    /// A copy of the label.
    pub fn duplicate(&self) -> (r: Label)
        ensures
            r@ == self@,
    {
        Label {
            src: self.src.clone(),
            uri: self.uri.clone(),
            cid: match &self.cid {
                Some(c) => Some(c.clone()),
                None => None,
            },
            val: self.val.clone(),
            neg: self.neg,
            cts: self.cts.clone(),
        }
    }
}

/// Viewer label preferences: the label values the viewer hides.
#[derive(Debug)]
pub struct ViewerPrefs {
    pub hidden_labels: Vec<String>,
}

/// The views of a list of labels.
pub open spec fn label_views(ls: Seq<Label>) -> Seq<LabelView> {
    ls.map_values(|l: Label| l@)
}

/// The labels of `ls` whose value is not in `hidden`, in order.
pub open spec fn visible_labels(ls: Seq<LabelView>, hidden: Seq<Seq<char>>) -> Seq<LabelView>
    decreases ls.len(),
{
    if ls.len() == 0 {
        Seq::empty()
    } else {
        let p = visible_labels(ls.drop_last(), hidden);
        if hidden.contains(ls.last().val) {
            p
        } else {
            p.push(ls.last())
        }
    }
}

fn is_hidden(prefs: &ViewerPrefs, val: &str) -> (r: bool)
    ensures
        r == prefs.hidden_labels@.map_values(|h: String| h@).contains(val@),
{
    let ghost hv = prefs.hidden_labels@.map_values(|h: String| h@);
    let mut i: usize = 0;
    while i < prefs.hidden_labels.len()
        invariant
            i <= prefs.hidden_labels@.len(),
            hv == prefs.hidden_labels@.map_values(|h: String| h@),
            forall|j: int| 0 <= j < i ==> hv[j] != val@,
        decreases prefs.hidden_labels@.len() - i,
    {
        if str_eq(prefs.hidden_labels[i].as_str(), val) {
            assert(hv[i as int] == val@);
            return true;
        }
        i = i + 1;
    }
    false
}

/// Filters labels by the viewer's preferences: without preferences every
/// label is kept; with them, those whose value the viewer hides are dropped.
pub fn filter_labels(labels: &[Label], viewer_prefs: Option<&ViewerPrefs>) -> (r: Vec<Label>)
    ensures
        label_views(r@) == match viewer_prefs {
            Some(p) => visible_labels(
                label_views(labels@),
                p.hidden_labels@.map_values(|h: String| h@),
            ),
            None => label_views(labels@),
        },
{
    let ghost hidden: Seq<Seq<char>> = match viewer_prefs {
        Some(p) => p.hidden_labels@.map_values(|h: String| h@),
        None => Seq::empty(),
    };
    let ghost lv = label_views(labels@);
    let mut out: Vec<Label> = Vec::new();
    let mut i: usize = 0;
    proof {
        assert(label_views(out@) =~= Seq::<LabelView>::empty());
        assert(lv.take(0) =~= Seq::<LabelView>::empty());
    }
    while i < labels.len()
        invariant
            i <= labels@.len(),
            lv == label_views(labels@),
            viewer_prefs matches Some(p) ==> hidden == p.hidden_labels@.map_values(|h: String| h@),
            viewer_prefs is None ==> hidden == Seq::<Seq<char>>::empty(),
            label_views(out@) == visible_labels(lv.take(i as int), hidden),
        decreases labels@.len() - i,
    {
        let keep = match viewer_prefs {
            Some(p) => !is_hidden(p, labels[i].val.as_str()),
            None => true,
        };
        let ghost before = label_views(out@);
        proof {
            assert(lv.take(i + 1).drop_last() =~= lv.take(i as int));
            assert(lv.take(i + 1).last() == labels@[i as int]@);
        }
        if keep {
            out.push(labels[i].duplicate());
            assert(label_views(out@) =~= before.push(labels@[i as int]@));
        }
        i = i + 1;
    }
    proof {
        assert(lv.take(lv.len() as int) =~= lv);
        if viewer_prefs is None {
            lemma_nothing_hidden(lv);
        }
    }
    out
}

/// Hiding nothing keeps every label.
pub proof fn lemma_nothing_hidden(ls: Seq<LabelView>)
    ensures
        visible_labels(ls, Seq::empty()) == ls,
    decreases ls.len(),
{
    if ls.len() > 0 {
        lemma_nothing_hidden(ls.drop_last());
        assert(ls.drop_last().push(ls.last()) =~= ls);
    }
}

proof fn lemma_push_contains(s: Seq<LabelView>, x: LabelView, l: LabelView)
    ensures
        s.push(x).contains(l) <==> s.contains(l) || l == x,
{
    let t = s.push(x);
    if s.contains(l) {
        let k = choose|k: int| 0 <= k < s.len() && s[k] == l;
        assert(t[k] == l);
    }
    if l == x {
        assert(t[s.len() as int] == l);
    }
    if t.contains(l) {
        let k = choose|k: int| 0 <= k < t.len() && t[k] == l;
        if k < s.len() {
            assert(s[k] == l);
        }
    }
}

/// Filtering keeps no hidden label and drops no visible one.
pub proof fn law_filter_exact(ls: Seq<LabelView>, hidden: Seq<Seq<char>>, l: LabelView)
    ensures
        visible_labels(ls, hidden).contains(l) <==> ls.contains(l) && !hidden.contains(l.val),
    decreases ls.len(),
{
    if ls.len() == 0 {
    } else {
        let p = ls.drop_last();
        let x = ls.last();
        law_filter_exact(p, hidden, l);
        assert(ls =~= p.push(x));
        lemma_push_contains(p, x, l);
        lemma_push_contains(visible_labels(p, hidden), x, l);
    }
}

} // verus!
