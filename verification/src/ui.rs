//! The user-interaction operations the flows need, as a trait, with a
//! terminal implementation on `dialoguer` and a scripted one for tests.

use vstd::prelude::*;
use std::collections::VecDeque;
use crate::text::{owned, views};

verus! {

/// Why a user interaction produced no answer.
#[derive(Debug, Clone, PartialEq)]
pub enum UiError {
    /// The user cancelled the prompt; what was cancelled.
    Cancelled(String),
    /// A scripted interface has no answer left of the kind asked for.
    NoResponse(String),
    /// The terminal failed.
    Terminal(String),
}

/// A question put to the user, with the answer it got.
pub enum Asked {
    /// A choice of one of `items` (by fuzzy search when `fuzzy`),
    /// starting on `default` when one is given.
    Choice {
        prompt: Seq<char>,
        items: Seq<Seq<char>>,
        default: Option<usize>,
        fuzzy: bool,
        answer: Result<usize, UiError>,
    },
    /// A line of text, offering `default` when one is given.
    Text { prompt: Seq<char>, default: Option<Seq<char>>, answer: Result<Seq<char>, UiError> },
    /// A yes/no question, with the default answer `default` when one is given.
    YesNo { prompt: Seq<char>, default: Option<bool>, answer: Result<bool, UiError> },
    /// A choice of any number of `items`.
    Choices { prompt: Seq<char>, items: Seq<Seq<char>>, answer: Result<Seq<usize>, UiError> },
}

/// The view of a text answer.
pub open spec fn text_answer(r: Result<String, UiError>) -> Result<Seq<char>, UiError> {
    match r {
        Ok(s) => Ok(s@),
        Err(e) => Err(e),
    }
}

/// The view of a multi-choice answer.
pub open spec fn choices_answer(r: Result<Vec<usize>, UiError>) -> Result<Seq<usize>, UiError> {
    match r {
        Ok(v) => Ok(v@),
        Err(e) => Err(e),
    }
}

/// The ways the flows ask the user for input.
pub trait UserInterface {
    /// The questions asked so far, in order, with their answers.
    spec fn asked(&self) -> Seq<Asked>;

    /// Picks one of `items`; the index of the chosen one.
    fn select(&mut self, prompt: &str, items: &[String]) -> (r: Result<usize, UiError>)
        ensures
            final(self).asked() == old(self).asked().push(
                (Asked::Choice { prompt: prompt@, items: views(items@), default: None, fuzzy: false, answer: r }),
            ),
    ;

    /// Picks one of `items`, starting on the item at `default`, which is
    /// one of them when there are any.
    fn select_with_default(&mut self, prompt: &str, items: &[String], default: usize) -> (r: Result<usize, UiError>)
        requires
            items@.len() > 0 ==> default < items@.len(),
        ensures
            final(self).asked() == old(self).asked().push(
                (Asked::Choice {
                    prompt: prompt@,
                    items: views(items@),
                    default: Some(default),
                    fuzzy: false,
                    answer: r,
                }),
            ),
    ;

    /// Picks one of `items` by fuzzy search.
    fn fuzzy_select(&mut self, prompt: &str, items: &[String]) -> (r: Result<usize, UiError>)
        ensures
            final(self).asked() == old(self).asked().push(
                (Asked::Choice { prompt: prompt@, items: views(items@), default: None, fuzzy: true, answer: r }),
            ),
    ;

    /// Reads a line of text.
    fn input(&mut self, prompt: &str) -> (r: Result<String, UiError>)
        ensures
            final(self).asked() == old(self).asked().push(
                (Asked::Text { prompt: prompt@, default: None, answer: text_answer(r) }),
            ),
    ;

    /// Reads a line of text, offering `default`.
    fn input_with_default(&mut self, prompt: &str, default: &str) -> (r: Result<String, UiError>)
        ensures
            final(self).asked() == old(self).asked().push(
                (Asked::Text { prompt: prompt@, default: Some(default@), answer: text_answer(r) }),
            ),
    ;

    /// Asks a yes/no question.
    fn confirm(&mut self, prompt: &str) -> (r: Result<bool, UiError>)
        ensures
            final(self).asked() == old(self).asked().push(
                (Asked::YesNo { prompt: prompt@, default: None, answer: r }),
            ),
    ;

    /// Asks a yes/no question with a default answer.
    fn confirm_with_default(&mut self, prompt: &str, default: bool) -> (r: Result<bool, UiError>)
        ensures
            final(self).asked() == old(self).asked().push(
                (Asked::YesNo { prompt: prompt@, default: Some(default), answer: r }),
            ),
    ;

    /// Picks any number of `items`; their indices.
    fn multiselect(&mut self, prompt: &str, items: &[String]) -> (r: Result<Vec<usize>, UiError>)
        ensures
            final(self).asked() == old(self).asked().push(
                (Asked::Choices { prompt: prompt@, items: views(items@), answer: choices_answer(r) }),
            ),
    ;
}

/// The user's answer to a `dialoguer::Select` prompt over `items`, starting
/// on `default`; `None` when the user quits.
///
/// Claimed of dialoguer: a chosen index is that of one of `items` (with a
/// prompt set, `Select` reports `items[sel]` before it returns `sel`).
/// Which item is chosen is the user's and is not stated.  A `default`
/// beyond the items panics when the user accepts it, so it is excluded;
/// with no items `Select` fails before reading `default`.
#[verifier::external_body]
fn dialoguer_select(prompt: &str, items: &[String], default: usize) -> (r: Result<Option<usize>, String>)
    requires
        items@.len() > 0 ==> default < items@.len(),
    ensures
        r matches Ok(Some(i)) ==> i < items@.len(),
{
    dialoguer::Select::new().with_prompt(prompt).items(items).default(default).interact_opt().map_err(
        |e| e.to_string(),
    )
}

/// The user's answer to a `dialoguer::FuzzySelect` prompt over `items`;
/// `None` when the user quits.
///
/// Claimed of dialoguer: a chosen index is the position of the chosen text
/// among `items`.  Which item is chosen is the user's and is not stated.
#[verifier::external_body]
fn dialoguer_fuzzy_select(prompt: &str, items: &[String]) -> (r: Result<Option<usize>, String>)
    ensures
        r matches Ok(Some(i)) ==> i < items@.len(),
{
    dialoguer::FuzzySelect::new().with_prompt(prompt).items(items).interact_opt().map_err(
        |e| e.to_string(),
    )
}

/// The text the user types at a `dialoguer::Input` prompt.  Nothing is
/// claimed of the text.
#[verifier::external_body]
fn dialoguer_input(prompt: &str) -> (r: Result<String, String>) {
    dialoguer::Input::<String>::new().with_prompt(prompt).interact_text().map_err(|e| e.to_string())
}

/// The text the user types at a `dialoguer::Input` prompt that offers
/// `default`.  Nothing is claimed of the text.
#[verifier::external_body]
fn dialoguer_input_with_default(prompt: &str, default: &str) -> (r: Result<String, String>) {
    dialoguer::Input::<String>::new().with_prompt(prompt).default(default.to_string()).interact_text().map_err(
        |e| e.to_string(),
    )
}

/// The user's answer to a `dialoguer::Confirm` prompt; `None` when the
/// user quits.  Nothing is claimed of the answer.
#[verifier::external_body]
fn dialoguer_confirm(prompt: &str) -> (r: Result<Option<bool>, String>) {
    dialoguer::Confirm::new().with_prompt(prompt).interact_opt().map_err(|e| e.to_string())
}

/// The user's answer to a `dialoguer::Confirm` prompt with the default
/// answer `default`; `None` when the user quits.  Nothing is claimed of the
/// answer.
#[verifier::external_body]
fn dialoguer_confirm_with_default(prompt: &str, default: bool) -> (r: Result<Option<bool>, String>) {
    dialoguer::Confirm::new().with_prompt(prompt).default(default).interact_opt().map_err(|e| e.to_string())
}

/// The items the user ticks at a `dialoguer::MultiSelect` prompt; `None`
/// when the user quits.
///
/// Claimed of dialoguer: the answer lists the indices of the ticked items
/// of `items` in increasing order (it enumerates one flag per item).  Which
/// items are ticked is the user's and is not stated.
#[verifier::external_body]
fn dialoguer_multiselect(prompt: &str, items: &[String]) -> (r: Result<Option<Vec<usize>>, String>)
    ensures
        r matches Ok(Some(v)) ==> picks_of(v@, items@.len()),
{
    dialoguer::MultiSelect::new().with_prompt(prompt).items(items).interact_opt().map_err(
        |e| e.to_string(),
    )
}

/// The answer of a terminal prompt, with quitting turned into
/// `Cancelled(what)`.
pub fn answer_or_cancel<T>(answer: Result<Option<T>, String>, what: &str) -> (r: Result<T, UiError>)
    ensures
        answer matches Ok(Some(x)) ==> r == Ok::<T, UiError>(x),
        answer matches Ok(None) ==> (r matches Err(e) && e matches UiError::Cancelled(m) && m@
            == what@),
        answer matches Err(m) ==> r == Err::<T, UiError>(UiError::Terminal(m)),
{
    match answer {
        Ok(Some(x)) => Ok(x),
        Ok(None) => Err(UiError::Cancelled(owned(what))),
        Err(m) => Err(UiError::Terminal(m)),
    }
}

/// `v` lists indices below `n`, in strictly increasing order.
pub open spec fn picks_of(v: Seq<usize>, n: nat) -> bool {
    &&& forall|k: int| 0 <= k < v.len() ==> #[trigger] v[k] < n
    &&& forall|j: int, k: int| 0 <= j < k < v.len() ==> v[j] < v[k]
}

/// How a terminal prompt that can be quit fails: quitting gives
/// `Cancelled(what)`, anything else is a terminal failure.
pub open spec fn prompt_failure(e: UiError, what: Seq<char>) -> bool {
    ||| e matches UiError::Cancelled(m) && m@ == what
    ||| e is Terminal
}

/// The terminal user interface, on `dialoguer`.
pub struct DialoguerUI {
    log: Ghost<Seq<Asked>>,
}

impl DialoguerUI {
    /// The terminal interface, before any question.
    pub fn new() -> (r: Self)
        ensures
            r.asked() == Seq::<Asked>::empty(),
    {
        DialoguerUI { log: Ghost(Seq::empty()) }
    }
}

impl UserInterface for DialoguerUI {
    closed spec fn asked(&self) -> Seq<Asked> {
        self.log@
    }

    /// A chosen index is that of one of `items`; failures are a quit or
    /// the terminal's.
    fn select(&mut self, prompt: &str, items: &[String]) -> (r: Result<usize, UiError>)
        ensures
            r matches Ok(i) ==> i < items@.len(),
            r matches Err(e) ==> prompt_failure(e, "selection"@),
    {
        let r = answer_or_cancel(dialoguer_select(prompt, items, 0), "selection");
        self.log = Ghost(self.log@.push(Asked::Choice { prompt: prompt@, items: views(items@), default: None, fuzzy: false, answer: r }));
        r
    }

    /// A chosen index is that of one of `items`; failures are a quit or
    /// the terminal's.
    fn select_with_default(&mut self, prompt: &str, items: &[String], default: usize) -> (r: Result<usize, UiError>)
        ensures
            r matches Ok(i) ==> i < items@.len(),
            r matches Err(e) ==> prompt_failure(e, "selection"@),
    {
        let r = answer_or_cancel(dialoguer_select(prompt, items, default), "selection");
        self.log = Ghost(self.log@.push(Asked::Choice { prompt: prompt@, items: views(items@), default: Some(default), fuzzy: false, answer: r }));
        r
    }

    /// A chosen index is that of one of `items`; failures are a quit or
    /// the terminal's.
    fn fuzzy_select(&mut self, prompt: &str, items: &[String]) -> (r: Result<usize, UiError>)
        ensures
            r matches Ok(i) ==> i < items@.len(),
            r matches Err(e) ==> prompt_failure(e, "fuzzy selection"@),
    {
        let r = answer_or_cancel(dialoguer_fuzzy_select(prompt, items), "fuzzy selection");
        self.log = Ghost(self.log@.push(Asked::Choice { prompt: prompt@, items: views(items@), default: None, fuzzy: true, answer: r }));
        r
    }

    /// Any text the user typed; the only failure is the terminal's.
    fn input(&mut self, prompt: &str) -> (r: Result<String, UiError>)
        ensures
            r matches Err(e) ==> e is Terminal,
    {
        let r = match dialoguer_input(prompt) {
            Ok(s) => Ok(s),
            Err(m) => Err(UiError::Terminal(m)),
        };
        self.log = Ghost(self.log@.push(Asked::Text { prompt: prompt@, default: None, answer: text_answer(r) }));
        r
    }

    /// Any text the user typed; the only failure is the terminal's.
    fn input_with_default(&mut self, prompt: &str, default: &str) -> (r: Result<String, UiError>)
        ensures
            r matches Err(e) ==> e is Terminal,
    {
        let r = match dialoguer_input_with_default(prompt, default) {
            Ok(s) => Ok(s),
            Err(m) => Err(UiError::Terminal(m)),
        };
        self.log = Ghost(self.log@.push(Asked::Text { prompt: prompt@, default: Some(default@), answer: text_answer(r) }));
        r
    }

    /// The user's answer; failures are a quit or the terminal's.
    fn confirm(&mut self, prompt: &str) -> (r: Result<bool, UiError>)
        ensures
            r matches Err(e) ==> prompt_failure(e, "confirmation"@),
    {
        let r = answer_or_cancel(dialoguer_confirm(prompt), "confirmation");
        self.log = Ghost(self.log@.push(Asked::YesNo { prompt: prompt@, default: None, answer: r }));
        r
    }

    /// The user's answer; failures are a quit or the terminal's.
    fn confirm_with_default(&mut self, prompt: &str, default: bool) -> (r: Result<bool, UiError>)
        ensures
            r matches Err(e) ==> prompt_failure(e, "confirmation"@),
    {
        let r = answer_or_cancel(dialoguer_confirm_with_default(prompt, default), "confirmation");
        self.log = Ghost(self.log@.push(Asked::YesNo { prompt: prompt@, default: Some(default), answer: r }));
        r
    }

    /// The indices of the ticked items of `items`, in increasing order;
    /// failures are a quit or the terminal's.
    fn multiselect(&mut self, prompt: &str, items: &[String]) -> (r: Result<Vec<usize>, UiError>)
        ensures
            r matches Ok(v) ==> picks_of(v@, items@.len()),
            r matches Err(e) ==> prompt_failure(e, "multiselection"@),
    {
        let r = answer_or_cancel(dialoguer_multiselect(prompt, items), "multiselection");
        self.log = Ghost(self.log@.push(Asked::Choices { prompt: prompt@, items: views(items@), answer: choices_answer(r) }));
        r
    }
}

/// A user interface that gives scripted answers, in order, for tests.
pub struct MockUI {
    selections: VecDeque<usize>,
    inputs: VecDeque<String>,
    confirms: VecDeque<bool>,
    multiselects: VecDeque<Vec<usize>>,
    log: Ghost<Seq<Asked>>,
}

impl MockUI {
    /// The selection answers not yet given.
    pub closed spec fn selections(&self) -> Seq<usize> {
        self.selections@
    }

    /// The text answers not yet given.
    pub closed spec fn inputs(&self) -> Seq<String> {
        self.inputs@
    }

    /// The yes/no answers not yet given.
    pub closed spec fn confirms(&self) -> Seq<bool> {
        self.confirms@
    }

    /// The multi-selection answers not yet given.
    pub closed spec fn multiselects(&self) -> Seq<Vec<usize>> {
        self.multiselects@
    }

    /// An interface with no answers.
    pub fn new() -> (r: Self)
        ensures
            r.selections().len() == 0,
            r.inputs().len() == 0,
            r.confirms().len() == 0,
            r.multiselects().len() == 0,
            r.asked() == Seq::<Asked>::empty(),
    {
        MockUI {
            selections: VecDeque::new(),
            inputs: VecDeque::new(),
            confirms: VecDeque::new(),
            multiselects: VecDeque::new(),
            log: Ghost(Seq::empty()),
        }
    }

    /// Adds a selection answer.
    pub fn with_selection(self, selection: usize) -> (r: Self)
        ensures
            r.selections() == self.selections().push(selection),
            r.inputs() == self.inputs(),
            r.confirms() == self.confirms(),
            r.multiselects() == self.multiselects(),
            r.asked() == self.asked(),
    {
        let mut s = self;
        s.selections.push_back(selection);
        s
    }

    /// Adds a text answer.
    pub fn with_input(self, input: &str) -> (r: Self)
        ensures
            r.inputs().len() == self.inputs().len() + 1,
            r.inputs().drop_last() == self.inputs(),
            r.inputs().last()@ == input@,
            r.selections() == self.selections(),
            r.confirms() == self.confirms(),
            r.multiselects() == self.multiselects(),
            r.asked() == self.asked(),
    {
        let mut s = self;
        s.inputs.push_back(owned(input));
        assert(s.inputs@.drop_last() =~= self.inputs@);
        s
    }

    /// Adds a yes/no answer.
    pub fn with_confirm(self, confirm: bool) -> (r: Self)
        ensures
            r.confirms() == self.confirms().push(confirm),
            r.selections() == self.selections(),
            r.inputs() == self.inputs(),
            r.multiselects() == self.multiselects(),
            r.asked() == self.asked(),
    {
        let mut s = self;
        s.confirms.push_back(confirm);
        s
    }

    /// Adds a multi-selection answer.
    pub fn with_multiselect(self, selections: Vec<usize>) -> (r: Self)
        ensures
            r.multiselects().len() == self.multiselects().len() + 1,
            r.multiselects().drop_last() == self.multiselects(),
            r.multiselects().last()@ == selections@,
            r.selections() == self.selections(),
            r.inputs() == self.inputs(),
            r.confirms() == self.confirms(),
            r.asked() == self.asked(),
    {
        let mut s = self;
        s.multiselects.push_back(selections);
        assert(s.multiselects@.drop_last() =~= self.multiselects@);
        s
    }

    /// The number of selection answers left.
    pub fn pending_selections(&self) -> (r: usize)
        ensures
            r == self.selections().len(),
    {
        self.selections.len()
    }

    /// The number of text answers left.
    pub fn pending_inputs(&self) -> (r: usize)
        ensures
            r == self.inputs().len(),
    {
        self.inputs.len()
    }

    /// The number of yes/no answers left.
    pub fn pending_confirms(&self) -> (r: usize)
        ensures
            r == self.confirms().len(),
    {
        self.confirms.len()
    }

    /// The number of multi-selection answers left.
    pub fn pending_multiselects(&self) -> (r: usize)
        ensures
            r == self.multiselects().len(),
    {
        self.multiselects.len()
    }

    /// Whether every scripted answer has been given.
    pub fn is_exhausted(&self) -> (r: bool)
        ensures
            r == (self.selections().len() == 0 && self.inputs().len() == 0 && self.confirms().len()
                == 0 && self.multiselects().len() == 0),
    {
        self.selections.len() == 0 && self.inputs.len() == 0 && self.confirms.len() == 0
            && self.multiselects.len() == 0
    }

    fn next_selection(&mut self) -> (r: Result<usize, UiError>)
        ensures
            old(self).selections().len() > 0 ==> r == Ok::<usize, UiError>(old(self).selections()[0])
                && final(self).selections() == old(self).selections().drop_first(),
            old(self).selections().len() == 0 ==> r is Err && final(self).selections() == old(self).selections(),
            final(self).inputs() == old(self).inputs(),
            final(self).confirms() == old(self).confirms(),
            final(self).multiselects() == old(self).multiselects(),
            final(self).asked() == old(self).asked(),
    {
        match self.selections.pop_front() {
            Some(x) => Ok(x),
            None => Err(UiError::NoResponse(owned("No more selections configured for MockUI"))),
        }
    }
}

impl UserInterface for MockUI {
    closed spec fn asked(&self) -> Seq<Asked> {
        self.log@
    }

    /// The next selection answer.
    fn select(&mut self, prompt: &str, items: &[String]) -> (r: Result<usize, UiError>)
        ensures
            old(self).selections().len() > 0 ==> r == Ok::<usize, UiError>(old(self).selections()[0])
                && final(self).selections() == old(self).selections().drop_first(),
            old(self).selections().len() == 0 ==> r is Err && final(self).selections() == old(self).selections(),
            final(self).inputs() == old(self).inputs(),
            final(self).confirms() == old(self).confirms(),
            final(self).multiselects() == old(self).multiselects(),
    {
        let r = self.next_selection();
        self.log = Ghost(self.log@.push(Asked::Choice { prompt: prompt@, items: views(items@), default: None, fuzzy: false, answer: r }));
        r
    }

    /// The next selection answer.
    fn select_with_default(&mut self, prompt: &str, items: &[String], default: usize) -> (r: Result<usize, UiError>)
        ensures
            old(self).selections().len() > 0 ==> r == Ok::<usize, UiError>(old(self).selections()[0])
                && final(self).selections() == old(self).selections().drop_first(),
            old(self).selections().len() == 0 ==> r is Err && final(self).selections() == old(self).selections(),
            final(self).inputs() == old(self).inputs(),
            final(self).confirms() == old(self).confirms(),
            final(self).multiselects() == old(self).multiselects(),
    {
        let r = self.next_selection();
        self.log = Ghost(self.log@.push(Asked::Choice { prompt: prompt@, items: views(items@), default: Some(default), fuzzy: false, answer: r }));
        r
    }

    /// The next selection answer, as for `select`.
    fn fuzzy_select(&mut self, prompt: &str, items: &[String]) -> (r: Result<usize, UiError>)
        ensures
            old(self).selections().len() > 0 ==> r == Ok::<usize, UiError>(old(self).selections()[0])
                && final(self).selections() == old(self).selections().drop_first(),
            old(self).selections().len() == 0 ==> r is Err && final(self).selections() == old(self).selections(),
            final(self).inputs() == old(self).inputs(),
            final(self).confirms() == old(self).confirms(),
            final(self).multiselects() == old(self).multiselects(),
    {
        let r = self.next_selection();
        self.log = Ghost(self.log@.push(Asked::Choice { prompt: prompt@, items: views(items@), default: None, fuzzy: true, answer: r }));
        r
    }

    /// The next text answer.
    fn input(&mut self, prompt: &str) -> (r: Result<String, UiError>)
        ensures
            old(self).inputs().len() > 0 ==> r == Ok::<String, UiError>(old(self).inputs()[0])
                && final(self).inputs() == old(self).inputs().drop_first(),
            old(self).inputs().len() == 0 ==> r is Err && final(self).inputs() == old(self).inputs(),
            final(self).selections() == old(self).selections(),
            final(self).confirms() == old(self).confirms(),
            final(self).multiselects() == old(self).multiselects(),
    {
        let r = match self.inputs.pop_front() {
            Some(x) => Ok(x),
            None => Err(UiError::NoResponse(owned("No more inputs configured for MockUI"))),
        };
        self.log = Ghost(self.log@.push(Asked::Text { prompt: prompt@, default: None, answer: text_answer(r) }));
        r
    }

    /// The next text answer, or `default` when none is left.
    fn input_with_default(&mut self, prompt: &str, default: &str) -> (r: Result<String, UiError>)
        ensures
            old(self).inputs().len() > 0 ==> r == Ok::<String, UiError>(old(self).inputs()[0])
                && final(self).inputs() == old(self).inputs().drop_first(),
            old(self).inputs().len() == 0 ==> (r matches Ok(s) && s@ == default@) && final(self).inputs() == old(self).inputs(),
            final(self).selections() == old(self).selections(),
            final(self).confirms() == old(self).confirms(),
            final(self).multiselects() == old(self).multiselects(),
    {
        let r = match self.inputs.pop_front() {
            Some(x) => Ok(x),
            None => Ok(owned(default)),
        };
        self.log = Ghost(self.log@.push(Asked::Text { prompt: prompt@, default: Some(default@), answer: text_answer(r) }));
        r
    }

    /// The next yes/no answer.
    fn confirm(&mut self, prompt: &str) -> (r: Result<bool, UiError>)
        ensures
            old(self).confirms().len() > 0 ==> r == Ok::<bool, UiError>(old(self).confirms()[0])
                && final(self).confirms() == old(self).confirms().drop_first(),
            old(self).confirms().len() == 0 ==> r is Err && final(self).confirms() == old(self).confirms(),
            final(self).selections() == old(self).selections(),
            final(self).inputs() == old(self).inputs(),
            final(self).multiselects() == old(self).multiselects(),
    {
        let r = match self.confirms.pop_front() {
            Some(x) => Ok(x),
            None => Err(UiError::NoResponse(owned("No more confirmations configured for MockUI"))),
        };
        self.log = Ghost(self.log@.push(Asked::YesNo { prompt: prompt@, default: None, answer: r }));
        r
    }

    /// The next yes/no answer, or `default` when none is left.
    fn confirm_with_default(&mut self, prompt: &str, default: bool) -> (r: Result<bool, UiError>)
        ensures
            old(self).confirms().len() > 0 ==> r == Ok::<bool, UiError>(old(self).confirms()[0])
                && final(self).confirms() == old(self).confirms().drop_first(),
            old(self).confirms().len() == 0 ==> r == Ok::<bool, UiError>(default) && final(self).confirms() == old(self).confirms(),
            final(self).selections() == old(self).selections(),
            final(self).inputs() == old(self).inputs(),
            final(self).multiselects() == old(self).multiselects(),
    {
        let r = match self.confirms.pop_front() {
            Some(x) => Ok(x),
            None => Ok(default),
        };
        self.log = Ghost(self.log@.push(Asked::YesNo { prompt: prompt@, default: Some(default), answer: r }));
        r
    }

    /// The next multi-selection answer.
    fn multiselect(&mut self, prompt: &str, items: &[String]) -> (r: Result<Vec<usize>, UiError>)
        ensures
            old(self).multiselects().len() > 0 ==> r == Ok::<Vec<usize>, UiError>(
                old(self).multiselects()[0],
            ) && final(self).multiselects() == old(self).multiselects().drop_first(),
            old(self).multiselects().len() == 0 ==> r is Err && final(self).multiselects() == old(self).multiselects(),
            final(self).selections() == old(self).selections(),
            final(self).inputs() == old(self).inputs(),
            final(self).confirms() == old(self).confirms(),
    {
        let r = match self.multiselects.pop_front() {
            Some(x) => Ok(x),
            None => Err(UiError::NoResponse(owned("No more multiselects configured for MockUI"))),
        };
        self.log = Ghost(self.log@.push(Asked::Choices { prompt: prompt@, items: views(items@), answer: choices_answer(r) }));
        r
    }
}

/// Answers are given back in the order they were scripted: an answer
/// added to a script leaves the next answer as it was, and once that is
/// taken the added answer is the last one left.
pub proof fn law_scripted_answers_in_order<A>(queue: Seq<A>, added: A)
    ensures
        queue.len() > 0 ==> queue.push(added)[0] == queue[0] && queue.push(added).drop_first()
            == queue.drop_first().push(added),
        queue.len() == 0 ==> queue.push(added)[0] == added && queue.push(added).drop_first().len()
            == 0,
{
    if queue.len() > 0 {
        assert(queue.push(added).drop_first() =~= queue.drop_first().push(added));
    }
}

} // verus!
