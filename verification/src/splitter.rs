//! The page splitter: a restartable pull producer that folds tag values
//! into presentation states and yields one finalized page per pull.

use vstd::prelude::*;
use crate::layout::{PageRenderer, SpanModel, TextSpan, spec_just_ok, spec_states};
use crate::parse::parse_multi;
use crate::state::State;
use crate::values::{ErrModel, SyntaxError, Value};

verus! {

/// Mathematical image of one finalized page.
pub struct PageModel {
    pub state: State,
    pub values: Seq<Value>,
    pub spans: Seq<SpanModel>,
}

/// Views of a page's spans, in order.
pub open spec fn spec_span_views(spans: Seq<TextSpan>) -> Seq<SpanModel> {
    spans.map_values(|t: TextSpan| t@)
}

/// States of modelled spans, in order.
pub open spec fn spec_model_states(spans: Seq<SpanModel>) -> Seq<State> {
    spans.map_values(|sm: SpanModel| sm.state)
}

/// A built page matches its model: same page state, same directives, and
/// spans equal up to the view.
pub open spec fn spec_page_matches(p: PageRenderer, m: PageModel) -> bool {
    &&& p.state == m.state
    &&& p.values@ == m.values
    &&& spec_span_views(p.spans@) == m.spans
}

/// View of a stored tokenizer error.
pub open spec fn spec_err_view(e: Option<SyntaxError>) -> Option<ErrModel> {
    match e {
        Some(err) => Some(err@),
        None => None,
    }
}

/// Outcome of pulling one page: the page or the error, and the splitter's
/// state, token position and continuation flag after the pull.
pub struct PullModel {
    pub result: Result<PageModel, ErrModel>,
    pub state: State,
    pub index: int,
    pub more: bool,
}

/// Splits a tokenized MULTI string into pages.  Each pull applies tags to
/// the running state until a new-page tag or the end of the input, and
/// yields the finalized page.
pub struct PageSplitter {
    pub default_state: State,
    pub state: State,
    /// The values before the first tokenizer error.
    pub tokens: Vec<Value>,
    /// The first tokenizer error, if the markup had one.
    pub terr: Option<SyntaxError>,
    /// Position of the next value to consume.
    pub index: usize,
    /// Another pull can produce a page.
    pub more: bool,
}

/// Page-start snapshot: the running state with the text rectangle and the
/// line spacing back at the sign defaults.
pub open spec fn spec_page_state(st: State, ds: State) -> State {
    State { text_rectangle: ds.text_rectangle, line_spacing: ds.line_spacing, ..st }
}

/// Accumulation of one page from value `i` on: the directives and spans
/// gathered (or the first error met), the state after the last consumed
/// value, the next position, and whether a new-page tag asked for another
/// pull.  A new line on a blank line records an empty span; a text
/// rectangle starts a blank line; page production ends at a new-page tag
/// or at the end of the input.
pub open spec fn spec_split(
    ds: State,
    st: State,
    blank: bool,
    vals: Seq<Value>,
    spans: Seq<SpanModel>,
    toks: Seq<Value>,
    terr: Option<ErrModel>,
    i: int,
) -> (Result<(Seq<Value>, Seq<SpanModel>), ErrModel>, State, int, bool)
    decreases toks.len() - i,
{
    if i < 0 || i >= toks.len() {
        match terr {
            Some(e) => (Err(e), st, i, false),
            None => (Ok((vals, spans)), st, i, false),
        }
    } else {
        let v = toks[i];
        match st.spec_update(ds, v) {
            Err(e) => (Err(e), st, i, false),
            Ok(st2) => match v {
                Value::NewPage => (Ok((vals, spans)), st2, i + 1, true),
                Value::NewLine(_) => {
                    let spans2 = if blank {
                        spans.push(SpanModel { state: st2, text: Seq::empty() })
                    } else {
                        spans
                    };
                    spec_split(ds, st2, true, vals, spans2, toks, terr, i + 1)
                },
                Value::TextRectangle(_) => spec_split(ds, st2, true, vals, spans, toks, terr, i + 1),
                Value::Text(t) => spec_split(
                    ds,
                    st2,
                    false,
                    vals,
                    spans.push(SpanModel { state: st2, text: t@ }),
                    toks,
                    terr,
                    i + 1,
                ),
                Value::Graphic(_, _) => spec_split(
                    ds,
                    st2,
                    blank,
                    vals.push(v),
                    spans,
                    toks,
                    terr,
                    i + 1,
                ),
                Value::ColorRectangle(_, _) => spec_split(
                    ds,
                    st2,
                    blank,
                    vals.push(v),
                    spans,
                    toks,
                    terr,
                    i + 1,
                ),
                _ => spec_split(ds, st2, blank, vals, spans, toks, terr, i + 1),
            },
        }
    }
}

/// One whole page pull from value `i` on: the accumulated page with its
/// page-scoped fields (background and timing) taken from the state after
/// the last consumed value, checked for justification conflicts.
pub open spec fn spec_make_page(
    ds: State,
    st: State,
    toks: Seq<Value>,
    terr: Option<ErrModel>,
    i: int,
) -> PullModel {
    let r = spec_split(ds, st, true, Seq::empty(), Seq::empty(), toks, terr, i);
    match r.0 {
        Err(e) => PullModel { result: Err(e), state: r.1, index: r.2, more: r.3 },
        Ok((vals, spans)) => {
            let rs = State {
                page_background: r.1.page_background,
                page_on_time_ds: r.1.page_on_time_ds,
                page_off_time_ds: r.1.page_off_time_ds,
                ..spec_page_state(st, ds)
            };
            let result = if spec_just_ok(spec_model_states(spans), 1, 1, 0) {
                Ok(PageModel { state: rs, values: vals, spans })
            } else {
                Err(ErrModel::TagConflict)
            };
            PullModel { result, state: r.1, index: r.2, more: r.3 }
        },
    }
}

/// What one pull leaves behind: the splitter keeps its defaults and
/// tokens, and moves exactly to the pull model's state, position and
/// continuation flag; the returned page or error is the model's.
pub open spec fn spec_pull_post(
    pre: PageSplitter,
    post: PageSplitter,
    res: Result<PageRenderer, SyntaxError>,
) -> bool {
    let pm = spec_make_page(
        pre.default_state,
        pre.state,
        pre.tokens@,
        spec_err_view(pre.terr),
        pre.index as int,
    );
    &&& post.default_state == pre.default_state
    &&& post.tokens@ == pre.tokens@
    &&& spec_err_view(post.terr) == spec_err_view(pre.terr)
    &&& post.state == pm.state
    &&& post.index as int == pm.index
    &&& post.more == pm.more
    &&& (match pm.result {
        Ok(pmod) => res matches Ok(p) && spec_page_matches(p, pmod),
        Err(e) => res matches Err(e2) && e2@ == e,
    })
}

impl PageSplitter {
    /// Create a new page splitter over a MULTI string, against the given
    /// sign default state.
    pub fn new(default_state: State, ms: &str) -> (r: PageSplitter)
        ensures
            r.default_state == default_state,
            r.state == default_state,
            r.index == 0,
            r.more == true,
            ms@.len() == 0 ==> r.tokens@.len() == 0 && r.terr is None,
            (ms@.len() > 0 && (forall|j: int|
                0 <= j < ms@.len() ==> ms@[j] != '[' && ms@[j] != ']')) ==> (r.tokens@.len() == 1
                && r.terr is None && (r.tokens@[0] matches Value::Text(t) && t@ == ms@)),
    {
        let (tokens, terr) = parse_multi(ms);
        PageSplitter { default_state, state: default_state, tokens, terr, index: 0, more: true }
    }

    /// Get the current page state: the running state with the page-scoped
    /// defaults restored.
    fn page_state(&self) -> (rs: State)
        ensures
            rs == spec_page_state(self.state, self.default_state),
    {
        let mut rs = self.state;
        rs.text_rectangle = self.default_state.text_rectangle;
        rs.line_spacing = self.default_state.line_spacing;
        rs
    }

    /// Make the next page.
    fn make_page(&mut self) -> (res: Result<PageRenderer, SyntaxError>)
        ensures
            spec_pull_post(*old(self), *final(self), res),
    {
        self.more = false;
        let mut blank = true;
        let rs0 = self.page_state();
        let mut values: Vec<Value> = Vec::new();
        let mut spans: Vec<TextSpan> = Vec::new();
        let mut got_page = false;
        let ghost ds = self.default_state;
        let ghost st0 = self.state;
        let ghost toks = self.tokens@;
        let ghost terrv = spec_err_view(self.terr);
        let ghost i0 = self.index as int;
        proof {
            assert(values@ =~= Seq::<Value>::empty());
            assert(spans@ =~= Seq::<TextSpan>::empty());
            assert(spec_span_views(spans@) =~= Seq::<SpanModel>::empty());
        }
        while !got_page && self.index < self.tokens.len()
            invariant
                ds == old(self).default_state,
                st0 == old(self).state,
                toks == old(self).tokens@,
                terrv == spec_err_view(old(self).terr),
                i0 == old(self).index as int,
                self.default_state == ds,
                self.tokens@ == toks,
                self.terr == old(self).terr,
                terrv == spec_err_view(self.terr),
                self.more == false,
                rs0 == spec_page_state(st0, ds),
                !got_page ==> spec_split(ds, st0, true, Seq::empty(), Seq::empty(), toks, terrv, i0)
                    == spec_split(
                    ds,
                    self.state,
                    blank,
                    values@,
                    spec_span_views(spans@),
                    toks,
                    terrv,
                    self.index as int,
                ),
                got_page ==> spec_split(ds, st0, true, Seq::empty(), Seq::empty(), toks, terrv, i0)
                    == (
                    Ok::<(Seq<Value>, Seq<SpanModel>), ErrModel>((values@, spec_span_views(spans@))),
                    self.state,
                    self.index as int,
                    true,
                ),
            decreases self.tokens@.len() - self.index,
        {
            let ghost spans0 = spans@;
            let ghost values0 = values@;
            let upd = self.state.update(&self.default_state, &self.tokens[self.index]);
            match upd {
                Err(e) => {
                    proof {
                        let i = self.index as int;
                        assert(self.state.spec_update(ds, toks[i]) == Err::<State, ErrModel>(e@));
                        assert(spec_split(
                            ds,
                            self.state,
                            blank,
                            values@,
                            spec_span_views(spans@),
                            toks,
                            terrv,
                            i,
                        ) == (
                            Err::<(Seq<Value>, Seq<SpanModel>), ErrModel>(e@),
                            self.state,
                            i,
                            false,
                        ));
                    }
                    return Err(e);
                },
                Ok(_) => {},
            }
            match &self.tokens[self.index] {
                Value::NewPage => {
                    self.index = self.index + 1;
                    got_page = true;
                },
                Value::NewLine(_) => {
                    if blank {
                        let ts = TextSpan::new(self.state, String::new());
                        spans.push(ts);
                        proof {
                            assert(spec_span_views(spans@) =~= spec_span_views(spans0).push(
                                SpanModel { state: self.state, text: Seq::empty() },
                            ));
                        }
                    }
                    blank = true;
                    self.index = self.index + 1;
                },
                Value::TextRectangle(_) => {
                    blank = true;
                    self.index = self.index + 1;
                },
                Value::Text(t) => {
                    let ts = TextSpan::new(self.state, t.clone());
                    spans.push(ts);
                    proof {
                        assert(spec_span_views(spans@) =~= spec_span_views(spans0).push(
                            SpanModel { state: self.state, text: t@ },
                        ));
                    }
                    blank = false;
                    self.index = self.index + 1;
                },
                Value::Graphic(gn, ga) => {
                    values.push(Value::Graphic(*gn, *ga));
                    self.index = self.index + 1;
                },
                Value::ColorRectangle(cr, cc) => {
                    values.push(Value::ColorRectangle(*cr, *cc));
                    self.index = self.index + 1;
                },
                _ => {
                    self.index = self.index + 1;
                },
            }
        }
        if !got_page {
            match &self.terr {
                Some(e) => {
                    let e2 = e.clone();
                    return Err(e2);
                },
                None => {},
            }
        }
        let mut rs = rs0;
        rs.page_background = self.state.page_background;
        rs.page_on_time_ds = self.state.page_on_time_ds;
        rs.page_off_time_ds = self.state.page_off_time_ds;
        if got_page {
            self.more = true;
        }
        let ghost gvals = values@;
        let ghost gspans = spans@;
        let page = PageRenderer::new(rs, values, spans);
        proof {
            assert(spec_states(page.spans@) =~= spec_model_states(spec_span_views(gspans)));
        }
        match page.check_justification() {
            Ok(_) => Ok(page),
            Err(e) => Err(e),
        }
    }

    /// Pull the next page: the page or the error that stopped it, or
    /// `None` once the producer is exhausted.
    pub fn next(&mut self) -> (res: Option<Result<PageRenderer, SyntaxError>>)
        ensures
            !old(self).more ==> res is None && *final(self) == *old(self),
            old(self).more ==> (res matches Some(r) && spec_pull_post(
                *old(self),
                *final(self),
                r,
            )),
    {
        if self.more {
            Some(self.make_page())
        } else {
            None
        }
    }
}

/// Splitting an empty input yields exactly one page, carrying only the
/// sign's default state, with no directives, no spans, and no further
/// pages.
pub proof fn lemma_empty_input_single_default_page(ds: State)
    ensures
        ({
            let pm = spec_make_page(ds, ds, Seq::<Value>::empty(), None, 0);
            &&& pm.result matches Ok(p) && p.state == ds && p.values.len() == 0 && p.spans.len()
                == 0
            &&& pm.state == ds
            &&& pm.index == 0
            &&& pm.more == false
        }),
{
    let r = spec_split(ds, ds, true, Seq::empty(), Seq::empty(), Seq::<Value>::empty(), None, 0);
    assert(r.0 == Ok::<(Seq<Value>, Seq<SpanModel>), ErrModel>((
        Seq::<Value>::empty(),
        Seq::<SpanModel>::empty(),
    )));
    assert(spec_page_state(ds, ds) == ds);
    assert(spec_model_states(Seq::<SpanModel>::empty()) =~= Seq::<State>::empty());
    assert(spec_just_ok(Seq::<State>::empty(), 1, 1, 0));
    let pm = spec_make_page(ds, ds, Seq::<Value>::empty(), None, 0);
    assert(pm.state == ds);
    assert(pm.result matches Ok(p) && p.state == State {
        page_background: ds.page_background,
        page_on_time_ds: ds.page_on_time_ds,
        page_off_time_ds: ds.page_off_time_ds,
        ..ds
    });
    assert((State {
        page_background: ds.page_background,
        page_on_time_ds: ds.page_on_time_ds,
        page_off_time_ds: ds.page_off_time_ds,
        ..ds
    }) == ds);
}

/// Pulling a page is a pure function of the splitter's visible state:
/// two splitters over the same defaults, state, token sequence and
/// pending error move to the same state and yield identical pages, span
/// for span and byte for byte.
pub proof fn lemma_pull_deterministic(
    pre1: PageSplitter,
    pre2: PageSplitter,
    post1: PageSplitter,
    post2: PageSplitter,
    r1: Result<PageRenderer, SyntaxError>,
    r2: Result<PageRenderer, SyntaxError>,
)
    requires
        pre1.default_state == pre2.default_state,
        pre1.state == pre2.state,
        pre1.tokens@ == pre2.tokens@,
        spec_err_view(pre1.terr) == spec_err_view(pre2.terr),
        pre1.index == pre2.index,
        spec_pull_post(pre1, post1, r1),
        spec_pull_post(pre2, post2, r2),
    ensures
        post1.state == post2.state,
        post1.index as int == post2.index as int,
        post1.more == post2.more,
        r1 is Ok <==> r2 is Ok,
        r1 is Ok ==> r1->Ok_0.state == r2->Ok_0.state && r1->Ok_0.values@ == r2->Ok_0.values@
            && spec_span_views(r1->Ok_0.spans@) == spec_span_views(r2->Ok_0.spans@),
        r1 is Err ==> r1->Err_0@ == r2->Err_0@,
{
}

} // verus!
