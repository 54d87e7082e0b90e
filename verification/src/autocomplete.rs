//! Case-insensitive prefix autocompletion over named items, and the
//! suggestion cycling used while typing.

use crate::textops::{has_prefix, lower_of, pop_char, push_char, starts_with_str, to_lowercase_string};
use std::collections::VecDeque;
use vstd::prelude::*;

verus! {

/// Something with a name that suggestions match against.
pub trait Named {
    /// The name in specification form.
    spec fn name_spec(&self) -> Seq<char>;

    /// The name matched against typed text.
    fn get_name(&self) -> (r: &str)
        ensures
            r@ == self.name_spec(),
    ;
}

/// Whether an item's name completes the typed text, ignoring case.
pub open spec fn completes(name: Seq<char>, text: Seq<char>) -> bool {
    has_prefix(lower_of(name), lower_of(text))
}

/// The items whose names complete `text`, in their original order.
pub open spec fn completions_of<T: Named>(values: Seq<T>, text: Seq<char>) -> Seq<T>
    decreases values.len(),
{
    if values.len() == 0 {
        Seq::<T>::empty()
    } else {
        let rest = completions_of(values.drop_last(), text);
        if completes(values.last().name_spec(), text) {
            rest.push(values.last())
        } else {
            rest
        }
    }
}

/// The indices of the items whose names complete `text`, ascending.
pub open spec fn completion_indices<T: Named>(values: Seq<T>, text: Seq<char>) -> Seq<int>
    decreases values.len(),
{
    if values.len() == 0 {
        Seq::<int>::empty()
    } else {
        let rest = completion_indices(values.drop_last(), text);
        if completes(values.last().name_spec(), text) {
            rest.push(values.len() - 1)
        } else {
            rest
        }
    }
}

/// Lowercasing the empty text leaves it empty, so every name completes it:
/// empty text offers every item.
pub proof fn lemma_empty_text_completes_all<T: Named>(values: Seq<T>, text: Seq<char>)
    requires
        lower_of(text).len() == 0,
    ensures
        completions_of(values, text).len() == values.len(),
        completion_indices(values, text).len() == values.len(),
    decreases values.len(),
{
    if values.len() > 0 {
        lemma_empty_text_completes_all::<T>(values.drop_last(), text);
        assert(completes(values.last().name_spec(), text)) by {
            assert(lower_of(values.last().name_spec()).take(0) =~= lower_of(text));
        }
    }
}

/// The values whose names start with the text, both lowercased; empty text
/// offers every value.
pub fn autocomplete<'a, T: Named>(values: &'a [T], text: &str) -> (r: Vec<&'a T>)
    ensures
        r@.map_values(|x: &T| *x) =~= completions_of(values@, text@),
        text@.len() == 0 ==> r@.len() == values@.len(),
{
    let lowered_text = to_lowercase_string(text);
    let mut out: Vec<&'a T> = Vec::new();
    let n = values.len();
    let mut i: usize = 0;
    while i < n
        invariant
            i <= n,
            n == values@.len(),
            out@.map_values(|x: &T| *x) =~= completions_of(values@.take(i as int), text@),
            lowered_text@ == lower_of(text@),
            text@.len() == 0 ==> lowered_text@.len() == 0,
        decreases n - i,
    {
        let item = &values[i];
        let lowered_name = to_lowercase_string(item.get_name());
        if starts_with_str(lowered_name.as_str(), lowered_text.as_str()) {
            out.push(item);
        }
        i = i + 1;
        proof {
            assert(values@.take(i as int).drop_last() =~= values@.take(i - 1));
            assert(values@.take(i as int).last() == values@[i - 1]);
            assert(out@.map_values(|x: &T| *x) =~= completions_of(values@.take(i as int), text@));
        }
    }
    proof {
        assert(values@.take(n as int) =~= values@);
        if text@.len() == 0 {
            lemma_empty_text_completes_all::<T>(values@, text@);
            assert(out@.map_values(|x: &T| *x).len() == out@.len());
        }
    }
    out
}

/// The indices of the values whose names start with the text, both
/// lowercased; empty text offers every value.
pub fn autocomplete_index<T: Named>(values: &[T], text: &str) -> (r: VecDeque<usize>)
    ensures
        r@.map_values(|u: usize| u as int) =~= completion_indices(values@, text@),
        forall|j: int| 0 <= j < r@.len() ==> #[trigger] r@[j] < values@.len(),
        text@.len() == 0 ==> r@.len() == values@.len(),
    decreases values@.len(),
{
    let lowered_text = to_lowercase_string(text);
    let mut out: VecDeque<usize> = VecDeque::new();
    let n = values.len();
    let mut i: usize = 0;
    while i < n
        invariant
            i <= n,
            n == values@.len(),
            out@.map_values(|u: usize| u as int) =~= completion_indices(
                values@.take(i as int),
                text@,
            ),
            forall|j: int| 0 <= j < out@.len() ==> #[trigger] out@[j] < i,
            lowered_text@ == lower_of(text@),
            text@.len() == 0 ==> lowered_text@.len() == 0,
        decreases n - i,
    {
        let item = &values[i];
        let lowered_name = to_lowercase_string(item.get_name());
        if starts_with_str(lowered_name.as_str(), lowered_text.as_str()) {
            out.push_back(i);
        }
        i = i + 1;
        proof {
            assert(values@.take(i as int).drop_last() =~= values@.take(i - 1));
            assert(values@.take(i as int).last() == values@[i - 1]);
            assert(out@.map_values(|u: usize| u as int) =~= completion_indices(
                values@.take(i as int),
                text@,
            ));
        }
    }
    proof {
        assert(values@.take(n as int) =~= values@);
        if text@.len() == 0 {
            lemma_empty_text_completes_all::<T>(values@, text@);
            assert(out@.map_values(|u: usize| u as int).len() == out@.len());
        }
    }
    out
}

/// A key press, as the suggestion logic sees it.  Anything the logic does
/// not react to arrives as `Other`.
#[derive(Clone, Copy, Debug, PartialEq, Eq, Structural)]
pub enum KeyInput {
    Char(char),
    Backspace,
    Esc,
    Tab,
    BackTab,
    Enter,
    Other,
}

/// Owns a list of named values and the indices currently suggested for the
/// typed text.
pub struct AutocompleteSuggestionManager<T: Named> {
    pub values: Vec<T>,
    pub suggestions: VecDeque<usize>,
}

impl<T: Named> AutocompleteSuggestionManager<T> {
    /// Every suggestion indexes into the values.
    pub open spec fn wf(self) -> bool {
        forall|j: int| 0 <= j < self.suggestions@.len() ==> #[trigger] self.suggestions@[j]
            < self.values@.len()
    }

    /// A manager over the given values with no suggestions yet.
    pub fn build(values: Vec<T>) -> (r: AutocompleteSuggestionManager<T>)
        ensures
            r.wf(),
            r.values@ == values@,
            r.suggestions@ == Seq::<usize>::empty(),
    {
        AutocompleteSuggestionManager { values, suggestions: VecDeque::new() }
    }

    /// Drops all suggestions.
    pub fn reset(&mut self)
        ensures
            final(self).wf(),
            final(self).values@ == old(self).values@,
            final(self).suggestions@ == Seq::<usize>::empty(),
    {
        self.suggestions = VecDeque::new();
    }

    /// Whether any suggestion is available.
    pub fn has_suggestions(&self) -> (r: bool)
        ensures
            r == (self.suggestions@.len() > 0),
    {
        self.suggestions.len() > 0
    }

    /// The suggestion currently in front, if any.
    pub fn current_suggestion(&self) -> (r: Option<&T>)
        requires
            self.wf(),
        ensures
            r is Some <==> self.suggestions@.len() > 0,
            r is Some ==> *r->0 == self.values@[self.suggestions@[0] as int],
    {
        if self.suggestions.len() == 0 {
            None
        } else {
            let idx = self.suggestions[0];
            Some(&self.values[idx])
        }
    }

    /// Feeds one key press into the typed text: a character extends the
    /// text when anything still completes it (and is swallowed otherwise),
    /// backspace shortens it, escape clears text and suggestions, and the
    /// tab keys cycle the suggestions either way.
    pub fn get_user_input_for_autocomplete(&mut self, text: &str, key: KeyInput) -> (r: String)
        requires
            old(self).wf(),
        ensures
            final(self).wf(),
            final(self).values@ == old(self).values@,
            ({
                let vs = old(self).values@;
                match key {
                    KeyInput::Char(c) => {
                        if completion_indices(vs, text@.push(c)).len() > 0 {
                            r@ == text@.push(c) && final(self).suggestions@.map_values(
                                |u: usize| u as int,
                            ) == completion_indices(vs, text@.push(c))
                        } else {
                            r@ == text@ && final(self).suggestions@ == old(self).suggestions@
                        }
                    },
                    KeyInput::Backspace => r@ == (if text@.len() > 0 {
                        text@.drop_last()
                    } else {
                        text@
                    }) && final(self).suggestions@ == old(self).suggestions@,
                    KeyInput::Esc => r@ == Seq::<char>::empty() && final(self).suggestions@
                        == Seq::<usize>::empty(),
                    KeyInput::BackTab => r@ == text@ && final(self).suggestions@ == (if old(
                        self,
                    ).suggestions@.len() > 0 {
                        seq![old(self).suggestions@.last()] + old(self).suggestions@.drop_last()
                    } else {
                        old(self).suggestions@
                    }),
                    KeyInput::Tab => r@ == text@ && final(self).suggestions@ == (if old(
                        self,
                    ).suggestions@.len() > 0 {
                        old(self).suggestions@.drop_first().push(old(self).suggestions@[0])
                    } else {
                        old(self).suggestions@
                    }),
                    _ => r@ == text@ && final(self).suggestions@ == old(self).suggestions@,
                }
            }),
    {
        let mut new_text = text.to_owned();
        match key {
            KeyInput::Char(c) => {
                push_char(&mut new_text, c);
                let new_suggestions = autocomplete_index(self.values.as_slice(), new_text.as_str());
                if new_suggestions.len() == 0 {
                    let _ = pop_char(&mut new_text);
                    proof {
                        assert(new_text@ =~= text@);
                    }
                } else {
                    self.suggestions = new_suggestions;
                }
            },
            KeyInput::Backspace => {
                let _ = pop_char(&mut new_text);
            },
            KeyInput::Esc => {
                new_text = String::new();
                self.suggestions = VecDeque::new();
            },
            KeyInput::BackTab => {
                match self.suggestions.pop_back() {
                    Some(idx) => {
                        self.suggestions.push_front(idx);
                        proof {
                            assert(self.suggestions@ =~= seq![old(self).suggestions@.last()] + old(
                                self,
                            ).suggestions@.drop_last());
                        }
                    },
                    None => {},
                }
            },
            KeyInput::Tab => {
                match self.suggestions.pop_front() {
                    Some(idx) => {
                        self.suggestions.push_back(idx);
                        proof {
                            assert(self.suggestions@ =~= old(self).suggestions@.drop_first().push(
                                old(self).suggestions@[0],
                            ));
                        }
                    },
                    None => {},
                }
            },
            _ => {},
        }
        new_text
    }
}

/// What one key press did to a free-standing autocompletion: either the
/// updated text and suggestions, or the suggestion the user accepted.
pub enum AutocompleteResult<'a, T: Named> {
    Continue { text: String, suggestions: VecDeque<&'a T> },
    Finished(&'a T),
}

/// One step of autocompletion over borrowed values: like the manager's
/// method, but carrying the suggestions alongside the text, and finishing
/// with the front suggestion on enter.
pub fn get_user_input_for_autocomplete<'a, T: Named>(
    values: &'a [T],
    current_text: &str,
    current_suggestions: &VecDeque<&'a T>,
    key: KeyInput,
) -> (r: AutocompleteResult<'a, T>)
    ensures
        ({
            match key {
                KeyInput::Char(c) => {
                    if completions_of(values@, current_text@.push(c)).len() > 0 {
                        r matches AutocompleteResult::Continue { text, suggestions } && text@
                            == current_text@.push(c) && suggestions@.map_values(|x: &T| *x)
                            == completions_of(values@, current_text@.push(c))
                    } else {
                        r matches AutocompleteResult::Continue { text, suggestions } && text@
                            == current_text@ && suggestions@ == current_suggestions@
                    }
                },
                KeyInput::Backspace => (r matches AutocompleteResult::Continue { text, suggestions }
                    && text@ == (if current_text@.len() > 0 {
                    current_text@.drop_last()
                } else {
                    current_text@
                }) && suggestions@ == current_suggestions@),
                KeyInput::Esc => (r matches AutocompleteResult::Continue { text, suggestions }
                    && text@ == Seq::<char>::empty() && suggestions@ == Seq::<&T>::empty()),
                KeyInput::BackTab => (r matches AutocompleteResult::Continue { text, suggestions }
                    && text@ == current_text@ && suggestions@ == (if current_suggestions@.len()
                    > 0 {
                    seq![current_suggestions@.last()] + current_suggestions@.drop_last()
                } else {
                    current_suggestions@
                })),
                KeyInput::Tab => (r matches AutocompleteResult::Continue { text, suggestions }
                    && text@ == current_text@ && suggestions@ == (if current_suggestions@.len()
                    > 0 {
                    current_suggestions@.drop_first().push(current_suggestions@[0])
                } else {
                    current_suggestions@
                })),
                KeyInput::Enter => {
                    if current_suggestions@.len() > 0 {
                        r matches AutocompleteResult::Finished(s) && s == current_suggestions@[0]
                    } else {
                        r matches AutocompleteResult::Continue { text, suggestions } && text@
                            == current_text@ && suggestions@ == current_suggestions@
                    }
                },
                KeyInput::Other => (r matches AutocompleteResult::Continue { text, suggestions }
                    && text@ == current_text@ && suggestions@ == current_suggestions@),
            }
        }),
{
    let mut new_text = current_text.to_owned();
    let mut new_suggestions = current_suggestions.clone();
    match key {
        KeyInput::Char(c) => {
            push_char(&mut new_text, c);
            let found = autocomplete(values, new_text.as_str());
            if found.len() == 0 {
                let _ = pop_char(&mut new_text);
                proof {
                    assert(new_text@ =~= current_text@);
                    assert(completions_of(values@, current_text@.push(c)).len() == 0) by {
                        assert(found@.map_values(|x: &T| *x).len() == found@.len());
                    }
                }
                AutocompleteResult::Continue { text: new_text, suggestions: new_suggestions }
            } else {
                let mut queue: VecDeque<&'a T> = VecDeque::new();
                let mut rest = found;
                let ghost all = rest@;
                loop
                    invariant
                        rest@.len() <= all.len(),
                        queue@ =~= all.skip(rest@.len() as int),
                        rest@ =~= all.take(rest@.len() as int),
                    ensures
                        queue@ =~= all,
                    decreases rest@.len(),
                {
                    let ghost k = rest@.len() as int;
                    match rest.pop() {
                        Some(x) => {
                            queue.push_front(x);
                            proof {
                                assert(all.take(k).drop_last() =~= all.take(k - 1));
                                assert(seq![all[k - 1]] + all.skip(k) =~= all.skip(k - 1));
                            }
                        },
                        None => {
                            proof {
                                assert(all.skip(0) =~= all);
                            }
                            break ;
                        },
                    }
                }
                proof {
                    assert(queue@.map_values(|x: &T| *x) =~= all.map_values(|x: &T| *x));
                }
                AutocompleteResult::Continue { text: new_text, suggestions: queue }
            }
        },
        KeyInput::Backspace => {
            let _ = pop_char(&mut new_text);
            AutocompleteResult::Continue { text: new_text, suggestions: new_suggestions }
        },
        KeyInput::Esc => {
            proof {
                assert(Seq::<&T>::empty() =~= Seq::<&T>::empty());
            }
            AutocompleteResult::Continue { text: String::new(), suggestions: VecDeque::new() }
        },
        KeyInput::BackTab => {
            match new_suggestions.pop_back() {
                Some(s) => {
                    new_suggestions.push_front(s);
                    proof {
                        assert(new_suggestions@ =~= seq![current_suggestions@.last()]
                            + current_suggestions@.drop_last());
                    }
                },
                None => {},
            }
            AutocompleteResult::Continue { text: new_text, suggestions: new_suggestions }
        },
        KeyInput::Tab => {
            match new_suggestions.pop_front() {
                Some(s) => {
                    new_suggestions.push_back(s);
                    proof {
                        assert(new_suggestions@ =~= current_suggestions@.drop_first().push(
                            current_suggestions@[0],
                        ));
                    }
                },
                None => {},
            }
            AutocompleteResult::Continue { text: new_text, suggestions: new_suggestions }
        },
        KeyInput::Enter => {
            if new_suggestions.len() > 0 {
                let s = new_suggestions[0];
                AutocompleteResult::Finished(s)
            } else {
                AutocompleteResult::Continue { text: new_text, suggestions: new_suggestions }
            }
        },
        KeyInput::Other => AutocompleteResult::Continue {
            text: new_text,
            suggestions: new_suggestions,
        },
    }
}

/// A plain text choice offered to the user.
pub struct AutocompleteOption(pub String);

impl AutocompleteOption {
    /// Wraps the choice's text.
    pub fn new(option: String) -> (r: AutocompleteOption)
        ensures
            r.0@ == option@,
    {
        AutocompleteOption(option)
    }

    /// The choice's text.
    pub fn text(&self) -> (r: &str)
        ensures
            r@ == self.0@,
    {
        self.0.as_str()
    }
}

impl Named for AutocompleteOption {
    open spec fn name_spec(&self) -> Seq<char> {
        self.0@
    }

    fn get_name(&self) -> (r: &str) {
        self.0.as_str()
    }
}

} // verus!
