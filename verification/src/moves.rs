//! Moves: the vocabulary of actions and body parts, and the parser that reads
//! a submission into moves.

use vstd::prelude::*;
use crate::text::{
    after_first, before_first, same_text, split_at_first, split_whitespace, texts, words,
};

verus! {

/// A body part that a move can target. The order of the variants is fixed.
#[derive(PartialEq, Eq, Structural, Debug, Copy, Clone)]
pub enum Part {
    Head,
    Neck,
    Chest,
    Groin,
    Legs,
}

/// What a move does.
#[derive(PartialEq, Eq, Structural, Debug, Copy, Clone)]
pub enum ActionType {
    Attack,
    Protect,
}

/// One move: an action and the body part it is aimed at.
#[derive(PartialEq, Eq, Structural, Debug, Copy, Clone)]
pub struct MoveData {
    pub action: ActionType,
    pub part: Part,
}

/// Why one token of a submission is not a move.
#[derive(PartialEq, Debug)]
pub enum ParseError {
    WrongAction { action: String },
    WrongPart { part: String },
}

/// Why a submission was rejected.
#[derive(PartialEq, Debug)]
pub enum InputError {
    WrongActions { actions: Vec<ParseError> },
    TooFewActions,
}

/// A `ParseError` with its text as a sequence of characters.
pub ghost enum ParseErrorView {
    WrongAction { action: Seq<char> },
    WrongPart { part: Seq<char> },
}

/// An `InputError` over `ParseErrorView`.
pub ghost enum InputErrorView {
    WrongActions { actions: Seq<ParseErrorView> },
    TooFewActions,
}

impl View for ParseError {
    type V = ParseErrorView;

    open spec fn view(&self) -> ParseErrorView {
        match self {
            ParseError::WrongAction { action } => ParseErrorView::WrongAction { action: action@ },
            ParseError::WrongPart { part } => ParseErrorView::WrongPart { part: part@ },
        }
    }
}

/// The view of each error of `errors`.
pub open spec fn error_views(errors: Seq<ParseError>) -> Seq<ParseErrorView> {
    errors.map_values(|e: ParseError| e@)
}

impl View for InputError {
    type V = InputErrorView;

    open spec fn view(&self) -> InputErrorView {
        match self {
            InputError::WrongActions { actions } => InputErrorView::WrongActions {
                actions: error_views(actions@),
            },
            InputError::TooFewActions => InputErrorView::TooFewActions,
        }
    }
}

impl Part {
    /// Position of the part in the fixed order, from 0 to 4.
    pub open spec fn ordinal(self) -> int {
        match self {
            Part::Head => 0,
            Part::Neck => 1,
            Part::Chest => 2,
            Part::Groin => 3,
            Part::Legs => 4,
        }
    }

    /// The part at position `index` of the fixed order.
    pub open spec fn at(index: int) -> Part {
        if index == 0 {
            Part::Head
        } else if index == 1 {
            Part::Neck
        } else if index == 2 {
            Part::Chest
        } else if index == 3 {
            Part::Groin
        } else {
            Part::Legs
        }
    }

    /// The part's name as it is written in a submission.
    pub open spec fn name(self) -> Seq<char> {
        match self {
            Part::Head => "Head"@,
            Part::Neck => "Neck"@,
            Part::Chest => "Chest"@,
            Part::Groin => "Groin"@,
            Part::Legs => "Legs"@,
        }
    }

    /// The part that `text` names, if it is exactly a part's name.
    pub open spec fn named(text: Seq<char>) -> Option<Part> {
        if text == Part::Head.name() {
            Some(Part::Head)
        } else if text == Part::Neck.name() {
            Some(Part::Neck)
        } else if text == Part::Chest.name() {
            Some(Part::Chest)
        } else if text == Part::Groin.name() {
            Some(Part::Groin)
        } else if text == Part::Legs.name() {
            Some(Part::Legs)
        } else {
            None
        }
    }

    /// Position of the part in the fixed order.
    pub fn index(self) -> (i: u8)
        ensures
            i == self.ordinal(),
            i <= 4,
    {
        match self {
            Part::Head => 0,
            Part::Neck => 1,
            Part::Chest => 2,
            Part::Groin => 3,
            Part::Legs => 4,
        }
    }

    /// The part at position `index` of the fixed order.
    pub fn from_index(index: u8) -> (part: Part)
        requires
            index <= 4,
        ensures
            part == Part::at(index as int),
            part.ordinal() == index,
    {
        if index == 0 {
            Part::Head
        } else if index == 1 {
            Part::Neck
        } else if index == 2 {
            Part::Chest
        } else if index == 3 {
            Part::Groin
        } else {
            Part::Legs
        }
    }

    /// The part's name.
    pub fn as_str(self) -> (s: &'static str)
        ensures
            s@ == self.name(),
    {
        match self {
            Part::Head => "Head",
            Part::Neck => "Neck",
            Part::Chest => "Chest",
            Part::Groin => "Groin",
            Part::Legs => "Legs",
        }
    }

    /// Reads a part's name. The match is exact and case-sensitive.
    pub fn from_str(input: &str) -> (r: Result<Part, ()>)
        ensures
            r == match Part::named(input@) {
                Some(part) => Ok::<Part, ()>(part),
                None => Err(()),
            },
    {
        if same_text(input, "Head") {
            Ok(Part::Head)
        } else if same_text(input, "Neck") {
            Ok(Part::Neck)
        } else if same_text(input, "Chest") {
            Ok(Part::Chest)
        } else if same_text(input, "Groin") {
            Ok(Part::Groin)
        } else if same_text(input, "Legs") {
            Ok(Part::Legs)
        } else {
            Err(())
        }
    }
}

impl ActionType {
    /// The action's name as it is written in a submission.
    pub open spec fn name(self) -> Seq<char> {
        match self {
            ActionType::Attack => "Attack"@,
            ActionType::Protect => "Protect"@,
        }
    }

    /// The action that `text` names, if it is exactly an action's name.
    pub open spec fn named(text: Seq<char>) -> Option<ActionType> {
        if text == ActionType::Attack.name() {
            Some(ActionType::Attack)
        } else if text == ActionType::Protect.name() {
            Some(ActionType::Protect)
        } else {
            None
        }
    }

    /// The action's name.
    pub fn as_str(self) -> (s: &'static str)
        ensures
            s@ == self.name(),
    {
        match self {
            ActionType::Attack => "Attack",
            ActionType::Protect => "Protect",
        }
    }

    /// Reads an action's name. The match is exact and case-sensitive.
    pub fn from_str(input: &str) -> (r: Result<ActionType, ()>)
        ensures
            r == match ActionType::named(input@) {
                Some(action) => Ok::<ActionType, ()>(action),
                None => Err(()),
            },
    {
        if same_text(input, "Attack") {
            Ok(ActionType::Attack)
        } else if same_text(input, "Protect") {
            Ok(ActionType::Protect)
        } else {
            Err(())
        }
    }
}

impl MoveData {
    pub fn new(action: ActionType, part: Part) -> (m: MoveData)
        ensures
            m == (MoveData { action, part }),
    {
        MoveData { action, part }
    }
}

/// What one token of a submission stands for. The token is split once, at its
/// first colon. The left side must be an action's name, else the token is a
/// wrong action; then the right side must be a part's name, else it is a wrong
/// part. The error carries the side that was not recognised.
pub open spec fn validated(token: Seq<char>) -> Result<MoveData, ParseErrorView> {
    match ActionType::named(before_first(token, ':')) {
        None => Err(ParseErrorView::WrongAction { action: before_first(token, ':') }),
        Some(action) => match Part::named(after_first(token, ':')) {
            None => Err(ParseErrorView::WrongPart { part: after_first(token, ':') }),
            Some(part) => Ok(MoveData { action, part }),
        },
    }
}

/// Whether a token stands for a move.
pub open spec fn is_valid(token: Seq<char>) -> bool {
    validated(token) is Ok
}

/// The moves that the valid tokens among `tokens` stand for, in order.
pub open spec fn moves_of(tokens: Seq<Seq<char>>) -> Seq<MoveData> {
    tokens.filter(|t: Seq<char>| is_valid(t)).map_values(|t: Seq<char>| validated(t)->Ok_0)
}

/// The errors of the invalid tokens among `tokens`, one for each, in order.
pub open spec fn errors_of(tokens: Seq<Seq<char>>) -> Seq<ParseErrorView> {
    tokens.filter(|t: Seq<char>| !is_valid(t)).map_values(|t: Seq<char>| validated(t)->Err_0)
}

/// What a submission stands for. Its tokens are its words. If any token is
/// invalid, the errors of all the invalid tokens are reported. Otherwise fewer
/// than two moves are too few, and two or more are the result, all of them.
pub open spec fn parsed(submission: Seq<char>) -> Result<Seq<MoveData>, InputErrorView> {
    let tokens = words(submission);
    if errors_of(tokens).len() > 0 {
        Err(InputErrorView::WrongActions { actions: errors_of(tokens) })
    } else if moves_of(tokens).len() < 2 {
        Err(InputErrorView::TooFewActions)
    } else {
        Ok(moves_of(tokens))
    }
}

/// The view of a parse result: the moves as a sequence, the error by its view.
pub open spec fn parse_view(r: Result<Vec<MoveData>, InputError>) -> Result<
    Seq<MoveData>,
    InputErrorView,
> {
    match r {
        Ok(moves) => Ok(moves@),
        Err(e) => Err(e@),
    }
}

/// Reads one token of the form `<Action>:<Part>`.
pub fn part_validator(string_to_validate: &str) -> (r: Result<MoveData, ParseError>)
    ensures
        match r {
            Ok(m) => validated(string_to_validate@) == Ok::<MoveData, ParseErrorView>(m),
            Err(e) => validated(string_to_validate@) == Err::<MoveData, ParseErrorView>(e@),
        },
{
    let (left, right) = split_at_first(string_to_validate, ':');
    match ActionType::from_str(left) {
        Err(_) => Err(ParseError::WrongAction { action: left.to_owned() }),
        Ok(action) => match Part::from_str(right) {
            Err(_) => Err(ParseError::WrongPart { part: right.to_owned() }),
            Ok(part) => Ok(MoveData::new(action, part)),
        },
    }
}

/// Reads a submission: tokens of the form `<Action>:<Part>`, separated by
/// white space.
pub fn parse_move(params: &str) -> (r: Result<Vec<MoveData>, InputError>)
    ensures
        parse_view(r) == parsed(params@),
{
    let tokens = split_whitespace(params);
    let mut actions: Vec<MoveData> = Vec::new();
    let mut errors: Vec<ParseError> = Vec::new();
    let ghost all = texts(tokens@);
    assert(all.take(0) == Seq::<Seq<char>>::empty());
    for i in 0..tokens.len()
        invariant
            all == texts(tokens@),
            all == words(params@),
            actions@ == moves_of(all.take(i as int)),
            error_views(errors@) == errors_of(all.take(i as int)),
    {
        let ghost seen = all.take(i as int);
        let ghost token = all[i as int];
        proof {
            assert(all.take(i + 1) == seen.push(token));
            seen.lemma_filter_push(token, |t: Seq<char>| is_valid(t));
            seen.lemma_filter_push(token, |t: Seq<char>| !is_valid(t));
        }
        match part_validator(tokens[i]) {
            Ok(m) => {
                actions.push(m);
                assert(actions@ == moves_of(seen.push(token)));
                assert(error_views(errors@) == errors_of(seen.push(token)));
            },
            Err(e) => {
                let ghost before = error_views(errors@);
                errors.push(e);
                assert(error_views(errors@) == before.push(e@));
                assert(error_views(errors@) == errors_of(seen.push(token)));
                assert(actions@ == moves_of(seen.push(token)));
            },
        }
    }
    assert(all.take(tokens.len() as int) == all);
    if errors.len() > 0 {
        Err(InputError::WrongActions { actions: errors })
    } else if actions.len() < 2 {
        Err(InputError::TooFewActions)
    } else {
        Ok(actions)
    }
}

/// Every part is the one that its own name names, and every action likewise:
/// no two of them share a name.
pub proof fn lemma_names_are_distinct(part: Part, action: ActionType)
    ensures
        Part::named(part.name()) == Some(part),
        ActionType::named(action.name()) == Some(action),
{
    reveal_strlit("Head");
    reveal_strlit("Neck");
    reveal_strlit("Chest");
    reveal_strlit("Groin");
    reveal_strlit("Legs");
    reveal_strlit("Attack");
    reveal_strlit("Protect");
    assert("Head"@[0] == 'H' && "Neck"@[0] == 'N' && "Legs"@[0] == 'L');
    assert("Chest"@[0] == 'C' && "Groin"@[0] == 'G');
    assert("Attack"@.len() == 6 && "Protect"@.len() == 7);
}

/// A filter that every element passes keeps the sequence as it is.
proof fn lemma_filter_keeps_all<A>(s: Seq<A>, pred: spec_fn(A) -> bool)
    requires
        forall|i: int| 0 <= i < s.len() ==> pred(#[trigger] s[i]),
    ensures
        s.filter(pred) == s,
    decreases s.len(),
{
    reveal(Seq::filter);
    if s.len() > 0 {
        lemma_filter_keeps_all(s.drop_last(), pred);
        assert(s.drop_last().push(s.last()) == s);
    }
}

/// A filter that no element passes keeps nothing.
proof fn lemma_filter_keeps_none<A>(s: Seq<A>, pred: spec_fn(A) -> bool)
    requires
        forall|i: int| 0 <= i < s.len() ==> !pred(#[trigger] s[i]),
    ensures
        s.filter(pred).len() == 0,
    decreases s.len(),
{
    reveal(Seq::filter);
    if s.len() > 0 {
        lemma_filter_keeps_none(s.drop_last(), pred);
    }
}

/// A submission of two or more tokens, all of them valid, parses to the move
/// of each token, in the order of the tokens: none is dropped, whatever their
/// number.
pub proof fn lemma_valid_submission_parses(submission: Seq<char>)
    requires
        words(submission).len() >= 2,
        forall|i: int|
            0 <= i < words(submission).len() ==> is_valid(#[trigger] words(submission)[i]),
    ensures
        parsed(submission) matches Ok(moves) && {
            &&& moves.len() == words(submission).len()
            &&& forall|i: int|
                0 <= i < moves.len() ==> validated(words(submission)[i]) == Ok::<
                    MoveData,
                    ParseErrorView,
                >(#[trigger] moves[i])
        },
{
    let tokens = words(submission);
    lemma_filter_keeps_all(tokens, |t: Seq<char>| is_valid(t));
    lemma_filter_keeps_none(tokens, |t: Seq<char>| !is_valid(t));
}

/// A submission with an invalid token is rejected with exactly one error for
/// each invalid token, in the order of the tokens. Each error is of the kind
/// that its token calls for: a wrong action carries the left side of a token
/// whose left side names no action; a wrong part carries the right side of a
/// token whose left side names an action and whose right side names no part.
pub proof fn lemma_invalid_tokens_are_reported(submission: Seq<char>)
    requires
        exists|i: int|
            0 <= i < words(submission).len() && !is_valid(#[trigger] words(submission)[i]),
    ensures
        parsed(submission) matches Err(InputErrorView::WrongActions { actions }) && {
            let invalid = words(submission).filter(|t: Seq<char>| !is_valid(t));
            &&& actions.len() == invalid.len()
            &&& actions.len() >= 1
            &&& forall|j: int|
                0 <= j < actions.len() ==> match #[trigger] actions[j] {
                    ParseErrorView::WrongAction { action } => {
                        &&& action == before_first(invalid[j], ':')
                        &&& ActionType::named(action) is None
                    },
                    ParseErrorView::WrongPart { part } => {
                        &&& part == after_first(invalid[j], ':')
                        &&& ActionType::named(before_first(invalid[j], ':')) is Some
                        &&& Part::named(part) is None
                    },
                }
        },
{
    let tokens = words(submission);
    let not_valid = |t: Seq<char>| !is_valid(t);
    let invalid = tokens.filter(not_valid);
    let i = choose|i: int| 0 <= i < tokens.len() && !is_valid(#[trigger] tokens[i]);
    tokens.lemma_filter_contains(not_valid, i);
    assert(invalid.len() >= 1);
    let actions = errors_of(tokens);
    assert forall|j: int| 0 <= j < actions.len() implies !is_valid(invalid[j]) by {
        tokens.lemma_filter_pred(not_valid, j);
    }
}

} // verus!
