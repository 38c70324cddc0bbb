//! The console's validation zone: viewing, issuing and withdrawing
//! registration tokens.

use vstd::prelude::*;
use vstd::string::*;

use crate::netspace::NetspaceIo;
use crate::text::{find_spec, split_spec, split_str, str_eq, string_eq};

use super::{render_table, table_text};

verus! {

/// What a validation command does.
#[derive(Clone, Copy, PartialEq, Eq, Structural, Debug)]
pub enum ValidationAction {
    View,
    Add,
    Remove,
}

/// Mathematical image of a [`ValidationOperand`].
pub ghost enum ValidationOperandView {
    Nil,
    All,
    Token(Seq<char>),
    Node(Seq<char>),
}

/// A target filter or value of a validation command.
#[derive(Clone, PartialEq, Debug)]
pub enum ValidationOperand {
    Nil,
    All,
    Token(String),
    Node(String),
}

impl View for ValidationOperand {
    type V = ValidationOperandView;

    open spec fn view(&self) -> ValidationOperandView {
        match self {
            ValidationOperand::Nil => ValidationOperandView::Nil,
            ValidationOperand::All => ValidationOperandView::All,
            ValidationOperand::Token(s) => ValidationOperandView::Token(s@),
            ValidationOperand::Node(s) => ValidationOperandView::Node(s@),
        }
    }
}

/// Mathematical image of a [`ValidationZone`].
pub ghost struct ValidationZoneView {
    pub action: ValidationAction,
    pub op1: ValidationOperandView,
    pub op2: ValidationOperandView,
}

/// One parsed validation command.
#[derive(Clone, PartialEq, Debug)]
pub struct ValidationZone {
    pub action: ValidationAction,
    pub op1: ValidationOperand,
    pub op2: ValidationOperand,
}

impl View for ValidationZone {
    type V = ValidationZoneView;

    open spec fn view(&self) -> ValidationZoneView {
        ValidationZoneView { action: self.action, op1: self.op1@, op2: self.op2@ }
    }
}

/// One operand read from the words starting at `i`.
pub open spec fn extract_vop_spec(parts: Seq<Seq<char>>, i: int) -> Option<(
    ValidationOperandView,
    int,
)> {
    if i >= parts.len() {
        Some((ValidationOperandView::Nil, i))
    } else {
        let w = parts[i];
        if w == "all"@ {
            Some((ValidationOperandView::All, i + 1))
        } else if w == "node"@ || w == "springname"@ {
            if i + 1 < parts.len() {
                Some((ValidationOperandView::Node(parts[i + 1]), i + 2))
            } else {
                None
            }
        } else if w == "token"@ {
            if i + 1 < parts.len() {
                Some((ValidationOperandView::Token(parts[i + 1]), i + 2))
            } else {
                None
            }
        } else {
            Some((ValidationOperandView::Nil, i + 1))
        }
    }
}

/// What the validation zone's part of a console command parses to.
pub open spec fn validation_zone_spec(msg: Seq<char>) -> Option<ValidationZoneView> {
    if msg.len() == 0 {
        None
    } else {
        let parts = split_spec(msg, ' ');
        let action = if parts[0] == "view"@ {
            Some(ValidationAction::View)
        } else if parts[0] == "add"@ {
            Some(ValidationAction::Add)
        } else if parts[0] == "rem"@ || parts[0] == "remove"@ {
            Some(ValidationAction::Remove)
        } else {
            None
        };
        match action {
            None => None,
            Some(action) => match extract_vop_spec(parts, 1) {
                None => None,
                Some((op1, next)) => if op1 is Nil {
                    None
                } else {
                    match extract_vop_spec(parts, next) {
                        None => None,
                        Some((op2, _)) => Some(ValidationZoneView { action, op1, op2 }),
                    }
                },
            },
        }
    }
}

impl ValidationZone {
    pub fn new(action: ValidationAction, op1: ValidationOperand, op2: ValidationOperand) -> (r:
        ValidationZone)
        ensures
            r@ == (ValidationZoneView { action, op1: op1@, op2: op2@ }),
    {
        ValidationZone { action, op1, op2 }
    }

    /// One operand read from the words starting at `i`.
    pub fn extract_operand(parts: &Vec<String>, i: usize) -> (r: Option<(ValidationOperand, usize)>)
        requires
            i <= parts@.len(),
        ensures
            match r {
                Some(p) => extract_vop_spec(parts@.map_values(|t: String| t@), i as int) == Some(
                    (p.0@, p.1 as int),
                ) && p.1 <= parts@.len(),
                None => extract_vop_spec(parts@.map_values(|t: String| t@), i as int) is None,
            },
    {
        if i >= parts.len() {
            return Some((ValidationOperand::Nil, i));
        }
        let w = parts[i].as_str();
        if str_eq(w, "all") {
            Some((ValidationOperand::All, i + 1))
        } else if str_eq(w, "node") || str_eq(w, "springname") {
            if i + 1 < parts.len() {
                Some((ValidationOperand::Node(parts[i + 1].clone()), i + 2))
            } else {
                None
            }
        } else if str_eq(w, "token") {
            if i + 1 < parts.len() {
                Some((ValidationOperand::Token(parts[i + 1].clone()), i + 2))
            } else {
                None
            }
        } else {
            Some((ValidationOperand::Nil, i + 1))
        }
    }

    pub fn from_str(msg: &str) -> (r: Option<ValidationZone>)
        ensures
            match r {
                Some(z) => validation_zone_spec(msg@) == Some(z@),
                None => validation_zone_spec(msg@) is None,
            },
    {
        if msg.unicode_len() == 0 {
            return None;
        }
        let parts = split_str(msg, ' ');
        let w0 = parts[0].as_str();
        let action = if str_eq(w0, "view") {
            ValidationAction::View
        } else if str_eq(w0, "add") {
            ValidationAction::Add
        } else if str_eq(w0, "rem") || str_eq(w0, "remove") {
            ValidationAction::Remove
        } else {
            return None;
        };
        let (op1, next) = match Self::extract_operand(&parts, 1) {
            None => {
                return None;
            },
            Some(p) => p,
        };
        match op1 {
            ValidationOperand::Nil => {
                return None;
            },
            _ => {},
        }
        let (op2, _) = match Self::extract_operand(&parts, next) {
            None => {
                return None;
            },
            Some(p) => p,
        };
        Some(ValidationZone::new(action, op1, op2))
    }

    /// Runs one validation command against the registry's token store.
    pub fn process(vz: ValidationZone, nio: &mut NetspaceIo) -> (r: Option<String>)
        requires
            old(nio).wf(),
        ensures
            final(nio).wf(),
            final(nio)@.gsn == old(nio)@.gsn,
            final(nio)@.gtn == old(nio)@.gtn,
    {
        match vz.action {
            ValidationAction::View => ValidationZoneModel::view(vz.op1, nio),
            ValidationAction::Add => ValidationZoneModel::add(vz.op1, vz.op2, nio),
            ValidationAction::Remove => ValidationZoneModel::remove(vz.op1, nio),
        }
    }
}

/// The table headings of a token listing.
pub open spec fn token_table_header() -> Seq<Seq<char>> {
    seq!["_token_"@, "_spring_"@]
}

/// The table drawn for a list of tokens.
pub open spec fn tokens_table(tokens: Seq<(Seq<char>, Seq<char>)>) -> Seq<char> {
    table_text(
        seq![token_table_header()] + tokens.map_values(
            |t: (Seq<char>, Seq<char>)| seq![t.0, t.1],
        ),
    )
}

/// The models behind the validation zone's actions.
pub struct ValidationZoneModel;

impl ValidationZoneModel {
    /// Tabulates the tokens the target filter selects.
    pub fn view(op: ValidationOperand, nio: &NetspaceIo) -> (r: Option<String>)
        ensures
            match op@ {
                ValidationOperandView::All => r matches Some(s) && s@ == tokens_table(
                    nio@.tokens,
                ),
                ValidationOperandView::Node(name) => r matches Some(s) && s@ == tokens_table(
                    crate::netspace::tokens_for(nio@.tokens, name),
                ),
                _ => r matches Some(s) && s@ == "Error: Unsupported target filter"@,
            },
    {
        match &op {
            ValidationOperand::All => Some(Self::tabulate_tokens(nio.gsn_tokens())),
            ValidationOperand::Node(s) => Some(
                Self::tabulate_tokens(nio.gsn_token_by_springname(s.as_str())),
            ),
            _ => Some(String::from_str("Error: Unsupported target filter")),
        }
    }

    /// Issues a token for a springname; the token and the name may come in
    /// either order.
    pub fn add(op1: ValidationOperand, op2: ValidationOperand, nio: &mut NetspaceIo) -> (r: Option<
        String,
    >)
        requires
            old(nio).wf(),
        ensures
            final(nio).wf(),
            final(nio)@.gsn == old(nio)@.gsn,
            final(nio)@.gtn == old(nio)@.gtn,
            ({
                let pair = add_pair_spec(op1@, op2@);
                match pair {
                    Some((token, spring)) => if token.len() == 0 || spring.len() == 0 {
                        r is None && final(nio)@ == old(nio)@
                    } else {
                        r matches Some(s) && s@ == "Added token "@ + token + " for "@ + spring
                            + "\n"@ && final(nio)@.tokens == old(nio)@.tokens.push(
                            (token, spring),
                        )
                    },
                    None => r matches Some(s) && s@ == "Error: Invalid operand\n"@ && final(nio)@
                        == old(nio)@,
                }
            }),
    {
        let mut token = String::new();
        let mut springname = String::new();
        match op1 {
            ValidationOperand::Token(s) => {
                token = s;
            },
            ValidationOperand::Node(s) => {
                springname = s;
            },
            _ => {
                return Some(String::from_str("Error: Invalid operand\n"));
            },
        }
        match op2 {
            ValidationOperand::Token(s) => {
                token = s;
            },
            ValidationOperand::Node(s) => {
                springname = s;
            },
            _ => {
                return Some(String::from_str("Error: Invalid operand\n"));
            },
        }
        if token.as_str().unicode_len() == 0 || springname.as_str().unicode_len() == 0 {
            return None;
        }
        nio.gsn_add_token(token.as_str(), springname.as_str());
        let mut m = String::from_str("Added token ");
        m.append(token.as_str());
        m.append(" for ");
        m.append(springname.as_str());
        m.append("\n");
        Some(m)
    }

    /// Withdraws a token, or every token of a springname.
    pub fn remove(op1: ValidationOperand, nio: &mut NetspaceIo) -> (r: Option<String>)
        requires
            old(nio).wf(),
        ensures
            final(nio).wf(),
            final(nio)@.gsn == old(nio)@.gsn,
            final(nio)@.gtn == old(nio)@.gtn,
            match op1@ {
                ValidationOperandView::Token(t) => r matches Some(s) && s@ == "Removed token "@ + t
                    + "\n"@ && final(nio)@.tokens == crate::netspace::tokens_without(
                    old(nio)@.tokens,
                    t,
                ),
                ValidationOperandView::Node(name) => r matches Some(s) && s@
                    == "Removed token for "@ + name + "\n"@ && final(nio)@.tokens
                    == crate::netspace::tokens_not_for(old(nio)@.tokens, name),
                _ => r matches Some(s) && s@ == "Error: Unsupported target filter\n"@
                    && final(nio)@ == old(nio)@,
            },
    {
        match &op1 {
            ValidationOperand::Token(s) => {
                nio.gsn_remove_token(s.as_str());
                let mut m = String::from_str("Removed token ");
                m.append(s.as_str());
                m.append("\n");
                Some(m)
            },
            ValidationOperand::Node(s) => {
                nio.gsn_remove_token_by_springname(s.as_str());
                let mut m = String::from_str("Removed token for ");
                m.append(s.as_str());
                m.append("\n");
                Some(m)
            },
            _ => Some(String::from_str("Error: Unsupported target filter\n")),
        }
    }

    /// The table of a list of tokens.
    pub fn tabulate_tokens(tokens: Vec<(String, String)>) -> (r: String)
        ensures
            r@ == tokens_table(tokens@.map_values(|t: (String, String)| (t.0@, t.1@))),
    {
        let mut rows: Vec<Vec<String>> = Vec::new();
        let mut head: Vec<String> = Vec::new();
        head.push(String::from_str("_token_"));
        head.push(String::from_str("_spring_"));
        proof {
            assert(head@.map_values(|c: String| c@) =~= token_table_header());
        }
        rows.push(head);
        let mut i: usize = 0;
        while i < tokens.len()
            invariant
                0 <= i <= tokens@.len(),
                rows@.len() == i + 1,
                rows@[0]@.map_values(|c: String| c@) == token_table_header(),
                forall|j: int|
                    1 <= j < i + 1 ==> rows@[j]@.map_values(|c: String| c@) == seq![
                        tokens@[j - 1].0@,
                        tokens@[j - 1].1@,
                    ],
            decreases tokens@.len() - i,
        {
            let mut row: Vec<String> = Vec::new();
            row.push(tokens[i].0.clone());
            row.push(tokens[i].1.clone());
            proof {
                assert(row@.map_values(|c: String| c@) =~= seq![
                    tokens@[i as int].0@,
                    tokens@[i as int].1@,
                ]);
            }
            rows.push(row);
            i = i + 1;
        }
        let r = render_table(&rows);
        proof {
            assert(rows@.map_values(|row: Vec<String>| row@.map_values(|c: String| c@)) =~= seq![
                token_table_header(),
            ] + tokens@.map_values(|t: (String, String)| (t.0@, t.1@)).map_values(
                |t: (Seq<char>, Seq<char>)| seq![t.0, t.1],
            ));
        }
        r
    }
}

/// The token and springname an `add` names, in whichever order, the later
/// operand overriding the earlier of the same kind.
pub open spec fn add_pair_spec(op1: ValidationOperandView, op2: ValidationOperandView) -> Option<
    (Seq<char>, Seq<char>),
> {
    let first = match op1 {
        ValidationOperandView::Token(t) => Some((t, Seq::<char>::empty())),
        ValidationOperandView::Node(n) => Some((Seq::<char>::empty(), n)),
        _ => None,
    };
    match first {
        None => None,
        Some((t1, s1)) => match op2 {
            ValidationOperandView::Token(t) => Some((t, s1)),
            ValidationOperandView::Node(n) => Some((t1, n)),
            _ => None,
        },
    }
}

} // verus!
