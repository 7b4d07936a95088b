//! How a guarded change to the finalizers is written as a JSON patch: a test of what the
//! change relies on, then the change.

use crate::protocol::{FinalizerPatch, FinalizerPatchView};
use vstd::prelude::*;
use vstd::string::*;

verus! {

/// Where the finalizers of a resource are found in its JSON form.
pub const FINALIZERS_PATH: &'static str = "/metadata/finalizers";

/// What stands for the place after the last element of a list.
pub const END_OF_LIST: &'static str = "-";

/// A JSON value as these patches carry it.
#[derive(Clone, Debug, PartialEq, Eq)]
pub enum PatchValue {
    Null,
    Text(String),
    List(Vec<String>),
}

/// The mathematical value of a [`PatchValue`].
pub enum PatchValueView {
    Null,
    Text(Seq<char>),
    List(Seq<Seq<char>>),
}

impl DeepView for PatchValue {
    type V = PatchValueView;

    open spec fn deep_view(&self) -> PatchValueView {
        match self {
            PatchValue::Null => PatchValueView::Null,
            PatchValue::Text(text) => PatchValueView::Text(text@),
            PatchValue::List(list) => PatchValueView::List(list.deep_view()),
        }
    }
}

impl View for PatchValue {
    type V = PatchValueView;

    open spec fn view(&self) -> PatchValueView {
        self.deep_view()
    }
}

/// One operation of a JSON patch. A patch is applied as a whole or not at all: when a
/// test fails, nothing changes.
#[derive(Clone, Debug, PartialEq, Eq)]
pub enum PatchOperation {
    /// Fail unless the value at `path` is `value`.
    Test { path: String, value: PatchValue },
    /// Put `value` at `path`.
    Add { path: String, value: PatchValue },
    /// Take out what is at `path`.
    Remove { path: String },
}

/// The mathematical value of a [`PatchOperation`].
pub enum PatchOperationView {
    Test { path: Seq<char>, value: PatchValueView },
    Add { path: Seq<char>, value: PatchValueView },
    Remove { path: Seq<char> },
}

impl DeepView for PatchOperation {
    type V = PatchOperationView;

    open spec fn deep_view(&self) -> PatchOperationView {
        match self {
            PatchOperation::Test { path, value } => PatchOperationView::Test {
                path: path@,
                value: value@,
            },
            PatchOperation::Add { path, value } => PatchOperationView::Add {
                path: path@,
                value: value@,
            },
            PatchOperation::Remove { path } => PatchOperationView::Remove { path: path@ },
        }
    }
}

impl View for PatchOperation {
    type V = PatchOperationView;

    open spec fn view(&self) -> PatchOperationView {
        self.deep_view()
    }
}

/// The decimal digit that stands for `d`, which is below ten.
pub open spec fn digit_of(d: nat) -> char
    recommends
        d < 10,
{
    if d == 0 {
        '0'
    } else if d == 1 {
        '1'
    } else if d == 2 {
        '2'
    } else if d == 3 {
        '3'
    } else if d == 4 {
        '4'
    } else if d == 5 {
        '5'
    } else if d == 6 {
        '6'
    } else if d == 7 {
        '7'
    } else if d == 8 {
        '8'
    } else {
        '9'
    }
}

/// `n` in decimal digits, the most significant first, without leading zeros.
pub open spec fn decimal_of(n: nat) -> Seq<char>
    decreases n,
{
    if n < 10 {
        seq![digit_of(n)]
    } else {
        decimal_of(n / 10).push(digit_of(n % 10))
    }
}

/// The place of element `index` of the finalizers.
pub open spec fn finalizer_path_of(index: nat) -> Seq<char> {
    FINALIZERS_PATH@ + "/"@ + decimal_of(index)
}

/// The place after the last of the finalizers.
pub open spec fn finalizers_end_path() -> Seq<char> {
    FINALIZERS_PATH@ + "/"@ + END_OF_LIST@
}

impl FinalizerPatchView {
    /// The operations that make this change: the test, then the change itself.
    pub open spec fn operations(self) -> Seq<PatchOperationView> {
        match self {
            FinalizerPatchView::Create { token } => seq![
                PatchOperationView::Test { path: FINALIZERS_PATH@, value: PatchValueView::Null },
                PatchOperationView::Add {
                    path: FINALIZERS_PATH@,
                    value: PatchValueView::List(seq![token]),
                },
            ],
            FinalizerPatchView::Append { expected, token } => seq![
                PatchOperationView::Test {
                    path: FINALIZERS_PATH@,
                    value: PatchValueView::List(expected),
                },
                PatchOperationView::Add {
                    path: finalizers_end_path(),
                    value: PatchValueView::Text(token),
                },
            ],
            FinalizerPatchView::Remove { index, token } => seq![
                PatchOperationView::Test {
                    path: finalizer_path_of(index as nat),
                    value: PatchValueView::Text(token),
                },
                PatchOperationView::Remove { path: finalizer_path_of(index as nat) },
            ],
        }
    }
}

/// The decimal digit that stands for `d`.
fn digit(d: usize) -> (text: &'static str)
    requires
        d < 10,
    ensures
        text@ == seq![digit_of(d as nat)],
{
    proof {
        reveal_strlit("0");
        reveal_strlit("1");
        reveal_strlit("2");
        reveal_strlit("3");
        reveal_strlit("4");
        reveal_strlit("5");
        reveal_strlit("6");
        reveal_strlit("7");
        reveal_strlit("8");
        reveal_strlit("9");
    }
    let text = if d == 0 {
        "0"
    } else if d == 1 {
        "1"
    } else if d == 2 {
        "2"
    } else if d == 3 {
        "3"
    } else if d == 4 {
        "4"
    } else if d == 5 {
        "5"
    } else if d == 6 {
        "6"
    } else if d == 7 {
        "7"
    } else if d == 8 {
        "8"
    } else {
        "9"
    };
    assert(text@ =~= seq![digit_of(d as nat)]);
    text
}

/// `n` in decimal digits.
pub fn decimal(n: usize) -> (text: String)
    ensures
        text@ == decimal_of(n as nat),
    decreases n,
{
    if n < 10 {
        String::from_str(digit(n))
    } else {
        let mut text = decimal(n / 10);
        text.append(digit(n % 10));
        assert(text@ =~= decimal_of((n / 10) as nat).push(digit_of((n % 10) as nat)));
        text
    }
}

/// The place of element `index` of the finalizers.
pub fn finalizer_path(index: usize) -> (path: String)
    ensures
        path@ == finalizer_path_of(index as nat),
{
    let mut path = String::from_str(FINALIZERS_PATH);
    path.append("/");
    let place = decimal(index);
    path.append(place.as_str());
    path
}

impl FinalizerPatch {
    /// The operations that make this change: the test, then the change itself.
    pub fn operations(&self) -> (operations: Vec<PatchOperation>)
        ensures
            operations.deep_view() == self@.operations(),
    {
        let operations = match self {
            FinalizerPatch::Create { token } => {
                let list = vec![token.clone()];
                assert(list.deep_view() =~= seq![token@]);
                vec![
                    PatchOperation::Test {
                        path: String::from_str(FINALIZERS_PATH),
                        value: PatchValue::Null,
                    },
                    PatchOperation::Add {
                        path: String::from_str(FINALIZERS_PATH),
                        value: PatchValue::List(list),
                    },
                ]
            },
            FinalizerPatch::Append { expected, token } => {
                let mut end = String::from_str(FINALIZERS_PATH);
                end.append("/");
                end.append(END_OF_LIST);
                vec![
                    PatchOperation::Test {
                        path: String::from_str(FINALIZERS_PATH),
                        value: PatchValue::List(crate::meta::clone_texts(expected)),
                    },
                    PatchOperation::Add { path: end, value: PatchValue::Text(token.clone()) },
                ]
            },
            FinalizerPatch::Remove { index, token } => {
                vec![
                    PatchOperation::Test {
                        path: finalizer_path(*index),
                        value: PatchValue::Text(token.clone()),
                    },
                    PatchOperation::Remove { path: finalizer_path(*index) },
                ]
            },
        };
        assert(operations.deep_view() =~= self@.operations());
        operations
    }
}

} // verus!
