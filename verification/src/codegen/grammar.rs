//! Parse trees of a grammar of parameter declarations. Each tree says, as a
//! function of the text and a position in it, what it derives there and
//! where the derivation ends; its `derive` computes that.

use vstd::prelude::*;
use vstd::string::*;
use crate::codegen::reader::{GrammarError, Reader};

verus! {

/// Something that can be derived from text.
pub trait ParseTree {
    type Derivation: View;

    /// What is derived at `pos` of `input`, and the position after it;
    /// `None` where nothing is.
    spec fn spec_derive(input: Seq<char>, pos: int) -> Option<
        (<Self::Derivation as View>::V, int),
    >;

    /// Derives at the position of the reader. The reader of the result
    /// stands after what was derived.
    fn derive(reader: Reader<'_>) -> (res: Result<
        DerivationResult<'_, Self::Derivation>,
        GrammarError,
    >)
        requires
            reader.wf(),
        ensures
            res is Ok <==> Self::spec_derive(reader.input@, reader.pos as int) is Some,
            res matches Ok(r) ==> Self::spec_derive(reader.input@, reader.pos as int) == Some(
                (r.derived@, r.branch.pos as int),
            ) && r.branch.input == reader.input && r.branch.wf(),
    ;
}

/// What was derived, and the reader after it.
#[derive(Debug, Clone)]
pub struct DerivationResult<'a, T> {
    pub derived: T,
    pub branch: Reader<'a>,
}

/// One of two trees: the first where it can be derived, else the second.
pub enum EitherOr<T, D> {
    Either(T),
    Or(D),
}

impl<T: View, D: View> View for EitherOr<T, D> {
    type V = EitherOr<T::V, D::V>;

    open spec fn view(&self) -> EitherOr<T::V, D::V> {
        match self {
            EitherOr::Either(t) => EitherOr::Either(t@),
            EitherOr::Or(d) => EitherOr::Or(d@),
        }
    }
}

/// The type of a parameter.
#[derive(Debug, Clone, Eq, PartialEq)]
pub enum GType {
    Bool,
    Char,
    Int,
    Struct(GStruct),
}

impl View for GType {
    type V = GType;

    open spec fn view(&self) -> GType {
        *self
    }
}

/// A struct type. Its grammar is not defined: it is never derived.
#[derive(Debug, Clone, Eq, PartialEq)]
pub struct GStruct;

impl View for GStruct {
    type V = GStruct;

    open spec fn view(&self) -> GStruct {
        *self
    }
}

/// The end of the text.
#[derive(Debug, Clone, Eq, PartialEq)]
pub struct GEof;

impl View for GEof {
    type V = GEof;

    open spec fn view(&self) -> GEof {
        *self
    }
}

/// A run of separators.
pub type GSeparator = Continuum<GSeparatorItem>;

/// One character that separates words.
#[derive(Debug, Clone, Eq, PartialEq)]
pub enum GSeparatorItem {
    Space,
    Newline,
    Tab,
}

impl View for GSeparatorItem {
    type V = GSeparatorItem;

    open spec fn view(&self) -> GSeparatorItem {
        *self
    }
}

/// The item of a parameter list. No function makes a value of it: the two
/// forms of an item are derived on their own.
pub struct GParamItem {
    never: (),
}

/// A parameter with a marker between its type and its name.
#[derive(Debug, Clone, Eq, PartialEq)]
pub struct GParamItemWithMarker {
    pub ty: GType,
    pub marker: GMarker,
    pub name: GParamName,
}

pub ghost struct GParamItemWithMarkerView {
    pub ty: GType,
    pub marker: Seq<char>,
    pub name: Seq<char>,
}

impl View for GParamItemWithMarker {
    type V = GParamItemWithMarkerView;

    open spec fn view(&self) -> GParamItemWithMarkerView {
        GParamItemWithMarkerView { ty: self.ty, marker: self.marker@, name: self.name@ }
    }
}

/// A parameter of a type and a name.
#[derive(Debug, Clone, Eq, PartialEq)]
pub struct GParamItemWithoutMarker {
    pub ty: GType,
    pub name: GParamName,
}

pub ghost struct GParamItemWithoutMarkerView {
    pub ty: GType,
    pub name: Seq<char>,
}

impl View for GParamItemWithoutMarker {
    type V = GParamItemWithoutMarkerView;

    open spec fn view(&self) -> GParamItemWithoutMarkerView {
        GParamItemWithoutMarkerView { ty: self.ty, name: self.name@ }
    }
}

/// The name of a parameter.
#[derive(Debug, Clone, Eq, PartialEq)]
pub struct GParamName(pub String);

impl View for GParamName {
    type V = Seq<char>;

    open spec fn view(&self) -> Seq<char> {
        self.0@
    }
}

/// The marker of a parameter.
#[derive(Debug, Clone, Eq, PartialEq)]
pub struct GMarker(pub String);

impl View for GMarker {
    type V = Seq<char>;

    open spec fn view(&self) -> Seq<char> {
        self.0@
    }
}

/// One thing or more of a kind, in the order in which they were derived.
#[derive(Debug, Eq, PartialEq)]
pub enum Continuum<T> {
    Thing(T),
    Next(ContinuumNext<T>),
}

/// A thing and what comes after it.
#[derive(Debug, Eq, PartialEq)]
pub struct ContinuumNext<T> {
    pub thing: T,
    pub next: Box<Continuum<T>>,
}

/// The things of a continuum in their order; there is at least one.
pub open spec fn spec_things<T: View>(items: Continuum<T>) -> Seq<T::V>
    decreases items,
{
    match items {
        Continuum::Thing(thing) => seq![thing@],
        Continuum::Next(next) => seq![next.thing@] + spec_things(*next.next),
    }
}

impl<T: View> View for Continuum<T> {
    type V = Seq<T::V>;

    open spec fn view(&self) -> Seq<T::V> {
        spec_things(*self)
    }
}

impl<T: View> Continuum<T> {
    /// The continuum with one more thing at its end.
    pub fn add(self, new_thing: T) -> (longer: Continuum<T>)
        ensures
            longer@ == self@.push(new_thing@),
        decreases self,
    {
        match self {
            Continuum::Thing(thing) => {
                let longer = Continuum::Next(
                    ContinuumNext { thing, next: Box::new(Continuum::Thing(new_thing)) },
                );
                assert(longer@ =~= self@.push(new_thing@)) by {
                    reveal_with_fuel(spec_things, 2);
                }
                longer
            },
            Continuum::Next(next) => {
                let ghost rest = next.next@;
                let ghost first = next.thing@;
                let tail = *next.next;
                let longer = Continuum::Next(
                    ContinuumNext { thing: next.thing, next: Box::new(tail.add(new_thing)) },
                );
                assert(longer@ =~= (seq![first] + rest).push(new_thing@)) by {
                    reveal_with_fuel(spec_things, 2);
                }
                longer
            },
        }
    }
}

/// A continuum is never empty.
pub proof fn lemma_continuum_not_empty<T: View>(items: Continuum<T>)
    ensures
        items@.len() >= 1,
    decreases items,
{
    match items {
        Continuum::Thing(_) => {},
        Continuum::Next(next) => {
            lemma_continuum_not_empty(*next.next);
        },
    }
}

/// The first position from `pos` on at which `P` can be derived; `None`
/// where there is none up to the end of the text.
pub open spec fn spec_until<P: ParseTree>(input: Seq<char>, pos: int) -> Option<int>
    decreases input.len() - pos,
{
    if pos < 0 || pos > input.len() {
        None
    } else if P::spec_derive(input, pos) is Some {
        Some(pos)
    } else if pos == input.len() {
        None
    } else {
        spec_until::<P>(input, pos + 1)
    }
}

/// What `spec_until` finds is the first position from `pos` on at which `P`
/// can be derived: `P` can be derived there, and nowhere before. Where it
/// finds none, `P` can be derived nowhere from `pos` to the end of the text.
pub proof fn lemma_until<P: ParseTree>(input: Seq<char>, pos: int)
    requires
        0 <= pos <= input.len(),
    ensures
        match spec_until::<P>(input, pos) {
            Some(end) => {
                &&& pos <= end <= input.len()
                &&& P::spec_derive(input, end) is Some
                &&& forall|k: int| pos <= k < end ==> P::spec_derive(input, k) is None
            },
            None => forall|k: int| pos <= k <= input.len() ==> P::spec_derive(input, k) is None,
        },
    decreases input.len() - pos,
{
    if P::spec_derive(input, pos) is None && pos < input.len() {
        lemma_until::<P>(input, pos + 1);
    }
}

/// Reads up to the first position at which `P` can be derived. What was
/// read comes back, and a reader at that position; `P` itself is not read.
pub fn read_until<'a, P: ParseTree>(reader: Reader<'a>) -> (res: Result<
    (String, Reader<'a>),
    GrammarError,
>)
    requires
        reader.wf(),
    ensures
        res is Ok <==> spec_until::<P>(reader.input@, reader.pos as int) is Some,
        res matches Ok((text, staged)) ==> spec_until::<P>(reader.input@, reader.pos as int)
            == Some(staged.pos as int) && text@ == reader.input@.subrange(
            reader.pos as int,
            staged.pos as int,
        ) && staged.input == reader.input && staged.wf() && reader.pos <= staged.pos,
{
    let len = reader.input.unicode_len();
    let mut i: usize = reader.pos;
    loop
        invariant
            reader.wf(),
            len == reader.input@.len(),
            reader.pos <= i <= len,
            spec_until::<P>(reader.input@, reader.pos as int) == spec_until::<P>(
                reader.input@,
                i as int,
            ),
        decreases len - i,
    {
        let probe = Reader { input: reader.input, pos: i };
        if P::derive(probe).is_ok() {
            let text = String::from_str(reader.input.substring_char(reader.pos, i));
            return Ok((text, probe));
        }
        if i == len {
            return Err(GrammarError::Todo);
        }
        i += 1;
    }
}

impl<T: ParseTree, D: ParseTree> ParseTree for EitherOr<T, D> {
    type Derivation = EitherOr<T::Derivation, D::Derivation>;

    open spec fn spec_derive(input: Seq<char>, pos: int) -> Option<
        (EitherOr<<T::Derivation as View>::V, <D::Derivation as View>::V>, int),
    > {
        match T::spec_derive(input, pos) {
            Some((derived, next)) => Some((EitherOr::Either(derived), next)),
            None => match D::spec_derive(input, pos) {
                Some((derived, next)) => Some((EitherOr::Or(derived), next)),
                None => None,
            },
        }
    }

    fn derive(reader: Reader<'_>) -> (res: Result<
        DerivationResult<'_, Self::Derivation>,
        GrammarError,
    >) {
        if let Ok(res) = T::derive(reader) {
            return Ok(DerivationResult { derived: EitherOr::Either(res.derived), branch: res.branch });
        }
        if let Ok(res) = D::derive(reader) {
            return Ok(DerivationResult { derived: EitherOr::Or(res.derived), branch: res.branch });
        }
        Err(GrammarError::Todo)
    }
}

impl ParseTree for GEof {
    type Derivation = GEof;

    /// The end is derived where nothing is left, and reads nothing.
    open spec fn spec_derive(input: Seq<char>, pos: int) -> Option<(GEof, int)> {
        if pos == input.len() {
            Some((GEof, pos))
        } else {
            None
        }
    }

    fn derive(reader: Reader<'_>) -> (res: Result<DerivationResult<'_, GEof>, GrammarError>) {
        let (slice, handle) = reader.read_amt(1);
        if slice.is_some() {
            return Err(GrammarError::Todo);
        }
        Ok(DerivationResult { derived: GEof, branch: handle })
    }
}

impl ParseTree for GStruct {
    type Derivation = GStruct;

    open spec fn spec_derive(input: Seq<char>, pos: int) -> Option<(GStruct, int)> {
        None
    }

    fn derive(reader: Reader<'_>) -> (res: Result<DerivationResult<'_, GStruct>, GrammarError>) {
        Err(GrammarError::Todo)
    }
}

/// The separator that a character is, if it is one.
pub open spec fn spec_separator(c: char) -> Option<GSeparatorItem> {
    if c == ' ' {
        Some(GSeparatorItem::Space)
    } else if c == '\n' {
        Some(GSeparatorItem::Newline)
    } else if c == '\t' {
        Some(GSeparatorItem::Tab)
    } else {
        None
    }
}

impl ParseTree for GSeparatorItem {
    type Derivation = GSeparatorItem;

    /// A separator is one character: a space, a newline or a tab.
    open spec fn spec_derive(input: Seq<char>, pos: int) -> Option<(GSeparatorItem, int)> {
        if 0 <= pos < input.len() {
            match spec_separator(input[pos]) {
                Some(item) => Some((item, pos + 1)),
                None => None,
            }
        } else {
            None
        }
    }

    fn derive(reader: Reader<'_>) -> (res: Result<
        DerivationResult<'_, GSeparatorItem>,
        GrammarError,
    >) {
        if reader.remaining() == 0 {
            return Err(GrammarError::Todo);
        }
        let c = reader.input.get_char(reader.pos);
        let derived = if c == ' ' {
            GSeparatorItem::Space
        } else if c == '\n' {
            GSeparatorItem::Newline
        } else if c == '\t' {
            GSeparatorItem::Tab
        } else {
            return Err(GrammarError::Todo);
        };
        Ok(DerivationResult { derived, branch: Reader { input: reader.input, pos: reader.pos + 1 } })
    }
}

/// The things of one kind that are derived one after the other from `pos`
/// on, and the position after the last. A thing that is derived without
/// reading anything is the last one.
pub open spec fn spec_many<T: ParseTree>(input: Seq<char>, pos: int) -> (
    Seq<<T::Derivation as View>::V>,
    int,
)
    decreases input.len() - pos,
{
    match T::spec_derive(input, pos) {
        None => (Seq::empty(), pos),
        Some((derived, next)) => if pos < next <= input.len() {
            let (rest, end) = spec_many::<T>(input, next);
            (seq![derived] + rest, end)
        } else {
            (seq![derived], next)
        },
    }
}

impl<T: ParseTree> ParseTree for Continuum<T> {
    type Derivation = Continuum<T::Derivation>;

    /// A continuum is as many things as can be derived one after the other,
    /// and at least one.
    open spec fn spec_derive(input: Seq<char>, pos: int) -> Option<
        (Seq<<T::Derivation as View>::V>, int),
    > {
        let (items, end) = spec_many::<T>(input, pos);
        if items.len() == 0 {
            None
        } else {
            Some((items, end))
        }
    }

    fn derive(reader: Reader<'_>) -> (res: Result<
        DerivationResult<'_, Self::Derivation>,
        GrammarError,
    >) {
        let first = match T::derive(reader) {
            Ok(first) => first,
            Err(_) => {
                return Err(GrammarError::Todo);
            },
        };
        let mut items: Continuum<T::Derivation> = Continuum::Thing(first.derived);
        let mut cur: Reader<'_> = first.branch;
        let mut progress: bool = reader.pos < cur.pos;
        let ghost start = reader.pos as int;
        let ghost input = reader.input@;
        while progress
            invariant
                cur.wf(),
                cur.input == reader.input,
                input == reader.input@,
                items@.len() >= 1,
                progress ==> spec_many::<T>(input, start) == (
                    items@ + spec_many::<T>(input, cur.pos as int).0,
                    spec_many::<T>(input, cur.pos as int).1,
                ),
                !progress ==> spec_many::<T>(input, start) == (items@, cur.pos as int),
            decreases
                if progress {
                    input.len() - cur.pos + 1
                } else {
                    0
                },
        {
            match T::derive(cur) {
                Ok(res) => {
                    let ghost before = items@;
                    progress = cur.pos < res.branch.pos;
                    items = items.add(res.derived);
                    proof {
                        let here = spec_many::<T>(input, cur.pos as int);
                        let derived = res.derived@;
                        if progress {
                            let after = spec_many::<T>(input, res.branch.pos as int);
                            assert(here.0 == seq![derived] + after.0);
                            assert(before + (seq![derived] + after.0) =~= before.push(derived)
                                + after.0);
                        } else {
                            assert(here.0 == seq![derived]);
                            assert(before + seq![derived] =~= before.push(derived));
                        }
                    }
                    cur = res.branch;
                },
                Err(_) => {
                    proof {
                        assert(items@ + Seq::empty() =~= items@);
                    }
                    progress = false;
                },
            }
        }
        Ok(DerivationResult { derived: items, branch: cur })
    }
}

/// The word at `pos`: the characters up to the first separator or the end
/// of the text, and the position at which it ends.
pub open spec fn spec_word(input: Seq<char>, pos: int) -> Option<(Seq<char>, int)> {
    match spec_until::<EitherOr<GSeparator, GEof>>(input, pos) {
        Some(end) => Some((input.subrange(pos, end), end)),
        None => None,
    }
}

/// The type that a word names, if it names one.
pub open spec fn spec_type_of_word(word: Seq<char>) -> Option<GType> {
    if word == "bool"@ {
        Some(GType::Bool)
    } else if word == "char"@ {
        Some(GType::Char)
    } else if word == "int"@ {
        Some(GType::Int)
    } else {
        None
    }
}

impl ParseTree for GType {
    type Derivation = GType;

    /// A type is one of the words `bool`, `char` and `int`. Any other word
    /// would have to be a struct, and no struct is derived.
    open spec fn spec_derive(input: Seq<char>, pos: int) -> Option<(GType, int)> {
        match spec_word(input, pos) {
            Some((word, end)) => match spec_type_of_word(word) {
                Some(ty) => Some((ty, end)),
                None => None,
            },
            None => None,
        }
    }

    fn derive(reader: Reader<'_>) -> (res: Result<DerivationResult<'_, GType>, GrammarError>) {
        let (slice, handle) = read_until::<EitherOr<GSeparator, GEof>>(reader)?;
        let derived = if slice == String::from_str("bool") {
            GType::Bool
        } else if slice == String::from_str("char") {
            GType::Char
        } else if slice == String::from_str("int") {
            GType::Int
        } else {
            // Back to where the word began, to try it as a struct.
            if let Ok(res) = GStruct::derive(reader) {
                return Ok(
                    DerivationResult { derived: GType::Struct(res.derived), branch: res.branch },
                );
            }
            return Err(GrammarError::Todo);
        };
        Ok(DerivationResult { derived, branch: handle })
    }
}

impl ParseTree for GParamName {
    type Derivation = GParamName;

    /// A name is the word at the position, which may be empty.
    open spec fn spec_derive(input: Seq<char>, pos: int) -> Option<(Seq<char>, int)> {
        spec_word(input, pos)
    }

    fn derive(reader: Reader<'_>) -> (res: Result<DerivationResult<'_, GParamName>, GrammarError>) {
        let (string, handle) = read_until::<EitherOr<GSeparator, GEof>>(reader)?;
        Ok(DerivationResult { derived: GParamName(string), branch: handle })
    }
}

impl ParseTree for GMarker {
    type Derivation = GMarker;

    /// A marker is what stands before the next separator; without a
    /// separator there is no marker.
    open spec fn spec_derive(input: Seq<char>, pos: int) -> Option<(Seq<char>, int)> {
        match spec_until::<GSeparator>(input, pos) {
            Some(end) => Some((input.subrange(pos, end), end)),
            None => None,
        }
    }

    fn derive(reader: Reader<'_>) -> (res: Result<DerivationResult<'_, GMarker>, GrammarError>) {
        let (string, handle) = read_until::<GSeparator>(reader)?;
        Ok(DerivationResult { derived: GMarker(string), branch: handle })
    }
}

/// The position after the separators that stand at `pos`, which is `pos`
/// itself where none stand there.
pub open spec fn spec_skip_separators(input: Seq<char>, pos: int) -> int {
    match EitherOr::<GSeparator, GEof>::spec_derive(input, pos) {
        Some((_, next)) => next,
        None => pos,
    }
}

/// Passes over the separators at the position of the reader.
pub fn skip_separators<'a>(reader: Reader<'a>) -> (after: Reader<'a>)
    requires
        reader.wf(),
    ensures
        after.input == reader.input,
        after.wf(),
        after.pos == spec_skip_separators(reader.input@, reader.pos as int),
{
    if let Ok(res) = EitherOr::<GSeparator, GEof>::derive(reader) {
        res.branch
    } else {
        reader
    }
}

impl ParseTree for GParamItemWithMarker {
    type Derivation = GParamItemWithMarker;

    /// A type, a marker and a name, with separators between them.
    open spec fn spec_derive(input: Seq<char>, pos: int) -> Option<
        (GParamItemWithMarkerView, int),
    > {
        match GType::spec_derive(input, pos) {
            None => None,
            Some((ty, after_ty)) => match GMarker::spec_derive(
                input,
                spec_skip_separators(input, after_ty),
            ) {
                None => None,
                Some((marker, after_marker)) => match GParamName::spec_derive(
                    input,
                    spec_skip_separators(input, after_marker),
                ) {
                    None => None,
                    Some((name, end)) => Some((GParamItemWithMarkerView { ty, marker, name }, end)),
                },
            },
        }
    }

    fn derive(reader: Reader<'_>) -> (res: Result<
        DerivationResult<'_, GParamItemWithMarker>,
        GrammarError,
    >) {
        // Derive parameter type.
        let ty_res = GType::derive(reader)?;
        // Ignore leading separators.
        let reader = skip_separators(ty_res.branch);
        // Derive marker.
        let marker_res = GMarker::derive(reader)?;
        // Ignore leading separators.
        let reader = skip_separators(marker_res.branch);
        // Derive parameter name.
        let name_res = GParamName::derive(reader)?;
        // Everything derived successfully, return.
        Ok(
            DerivationResult {
                derived: GParamItemWithMarker {
                    ty: ty_res.derived,
                    marker: marker_res.derived,
                    name: name_res.derived,
                },
                branch: name_res.branch,
            },
        )
    }
}

impl ParseTree for GParamItemWithoutMarker {
    type Derivation = GParamItemWithoutMarker;

    /// A type and a name, with separators between them.
    open spec fn spec_derive(input: Seq<char>, pos: int) -> Option<
        (GParamItemWithoutMarkerView, int),
    > {
        match GType::spec_derive(input, pos) {
            None => None,
            Some((ty, after_ty)) => match GParamName::spec_derive(
                input,
                spec_skip_separators(input, after_ty),
            ) {
                None => None,
                Some((name, end)) => Some((GParamItemWithoutMarkerView { ty, name }, end)),
            },
        }
    }

    fn derive(reader: Reader<'_>) -> (res: Result<
        DerivationResult<'_, GParamItemWithoutMarker>,
        GrammarError,
    >) {
        // Derive parameter type.
        let ty_res = GType::derive(reader)?;
        // Ignore leading separators.
        let reader = skip_separators(ty_res.branch);
        // Derive parameter name.
        let name_res = GParamName::derive(reader)?;
        // Everything derived successfully, return.
        Ok(
            DerivationResult {
                derived: GParamItemWithoutMarker { ty: ty_res.derived, name: name_res.derived },
                branch: name_res.branch,
            },
        )
    }
}

/// A run of separators is what its text says: it ends at the first
/// character that is no separator, or at the end of the text, and holds one
/// item for each character up to there.
pub proof fn lemma_separator_run(input: Seq<char>, pos: int)
    requires
        0 <= pos <= input.len(),
    ensures
        ({
            let (items, end) = spec_many::<GSeparatorItem>(input, pos);
            &&& pos <= end <= input.len()
            &&& items.len() == end - pos
            &&& forall|i: int|
                pos <= i < end ==> spec_separator(#[trigger] input[i]) == Some(items[i - pos])
            &&& end == input.len() || spec_separator(input[end]) is None
        }),
    decreases input.len() - pos,
{
    match GSeparatorItem::spec_derive(input, pos) {
        None => {},
        Some((item, next)) => {
            lemma_separator_run(input, pos + 1);
            let (rest, end) = spec_many::<GSeparatorItem>(input, pos + 1);
            let items = seq![item] + rest;
            assert forall|i: int| pos <= i < end implies spec_separator(#[trigger] input[i])
                == Some(items[i - pos]) by {
                if i > pos {
                    assert(items[i - pos] == rest[i - (pos + 1)]);
                }
            }
        },
    }
}

/// Separators or the end of the text are found exactly where the text ends
/// or a separator stands.
pub proof fn lemma_separator_or_end(input: Seq<char>, pos: int)
    requires
        0 <= pos <= input.len(),
    ensures
        EitherOr::<GSeparator, GEof>::spec_derive(input, pos) is Some <==> (pos == input.len()
            || spec_separator(input[pos]) is Some),
        GSeparator::spec_derive(input, pos) is Some <==> (pos < input.len() && spec_separator(
            input[pos],
        ) is Some),
{
    lemma_separator_run(input, pos);
}

/// After separators are passed over, the reader stands at the first
/// character from `pos` on that is no separator, or at the end of the text.
pub proof fn lemma_skip_separators(input: Seq<char>, pos: int)
    requires
        0 <= pos <= input.len(),
    ensures
        ({
            let end = spec_skip_separators(input, pos);
            &&& pos <= end <= input.len()
            &&& forall|i: int| pos <= i < end ==> spec_separator(#[trigger] input[i]) is Some
            &&& end == input.len() || spec_separator(input[end]) is None
        }),
{
    lemma_separator_run(input, pos);
}

/// There is a word at every position: it runs to the first separator from
/// `pos` on, or to the end of the text, and holds no separator.
pub proof fn lemma_word(input: Seq<char>, pos: int)
    requires
        0 <= pos <= input.len(),
    ensures
        spec_word(input, pos) is Some,
        ({
            let (word, end) = spec_word(input, pos)->0;
            &&& pos <= end <= input.len()
            &&& word == input.subrange(pos, end)
            &&& forall|i: int| pos <= i < end ==> spec_separator(#[trigger] input[i]) is None
            &&& end == input.len() || spec_separator(input[end]) is Some
        }),
    decreases input.len() - pos,
{
    lemma_separator_or_end(input, pos);
    if EitherOr::<GSeparator, GEof>::spec_derive(input, pos) is None {
        lemma_word(input, pos + 1);
    }
}

/// A marker is there exactly where a separator follows: it runs to the
/// first separator from `pos` on and holds none.
pub proof fn lemma_marker(input: Seq<char>, pos: int)
    requires
        0 <= pos <= input.len(),
    ensures
        GMarker::spec_derive(input, pos) is Some <==> exists|i: int|
            pos <= i < input.len() && spec_separator(#[trigger] input[i]) is Some,
        GMarker::spec_derive(input, pos) matches Some((marker, end)) ==> {
            &&& pos <= end < input.len()
            &&& marker == input.subrange(pos, end)
            &&& forall|i: int| pos <= i < end ==> spec_separator(#[trigger] input[i]) is None
            &&& spec_separator(input[end]) is Some
        },
    decreases input.len() - pos,
{
    lemma_separator_or_end(input, pos);
    if GSeparator::spec_derive(input, pos) is None && pos < input.len() {
        lemma_marker(input, pos + 1);
        if GMarker::spec_derive(input, pos + 1) is Some {
            let i = choose|i: int|
                pos + 1 <= i < input.len() && spec_separator(#[trigger] input[i]) is Some;
            assert(pos <= i < input.len() && spec_separator(input[i]) is Some);
        }
    }
}

/// A type is derived exactly where one of the three words stands, and the
/// derivation ends where the word ends.
pub proof fn lemma_type(input: Seq<char>, pos: int)
    requires
        0 <= pos <= input.len(),
    ensures
        ({
            let (word, end) = spec_word(input, pos)->0;
            GType::spec_derive(input, pos) == match spec_type_of_word(word) {
                Some(ty) => Some((ty, end)),
                None => None,
            }
        }),
        GType::spec_derive(input, pos) matches Some((ty, end)) ==> ty !is Struct && pos < end
            <= input.len(),
{
    lemma_word(input, pos);
    reveal_strlit("bool");
    reveal_strlit("char");
    reveal_strlit("int");
    let (word, end) = spec_word(input, pos)->0;
    assert(word.len() == end - pos);
    assert("bool"@.len() == 4 && "char"@.len() == 4 && "int"@.len() == 3);
}

impl From<String> for GParamName {
    fn from(string: String) -> (name: GParamName) {
        GParamName(string)
    }
}

impl vstd::std_specs::convert::FromSpecImpl<String> for GParamName {
    open spec fn obeys_from_spec() -> bool {
        true
    }

    open spec fn from_spec(string: String) -> GParamName {
        GParamName(string)
    }
}

impl From<String> for GMarker {
    fn from(string: String) -> (marker: GMarker) {
        GMarker(string)
    }
}

impl vstd::std_specs::convert::FromSpecImpl<String> for GMarker {
    open spec fn obeys_from_spec() -> bool {
        true
    }

    open spec fn from_spec(string: String) -> GMarker {
        GMarker(string)
    }
}

} // verus!
