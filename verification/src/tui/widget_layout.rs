use vstd::prelude::*;

use vstd::string::StrSliceExecFns;

use crate::text::{chars_of, str_eq, string_of};

verus! {

/// The kind of a layout constraint that a field of a widget can ask for.
#[derive(Clone, Copy, Debug, PartialEq, Eq, Structural)]
pub enum ConstraintKind {
    /// at least so many lines
    Min,
    /// at most so many lines
    Max,
    /// exactly so many lines
    Length,
    /// a percentage of the area
    Percentage,
    /// a share of the space left
    Fill,
}

/// Why the attributes of a widget's fields could not be laid out.
#[derive(Clone, Copy, Debug, PartialEq, Eq, Structural)]
pub enum PlanError {
    /// a ratio constraint was asked for, which is not supported
    RatioUnsupported,
    /// the constraint type is not one that is known
    UnknownConstraintType,
    /// a drawn field has no display order
    MissingDisplayOrder,
    /// a drawn field has no constraint type
    MissingConstraintType,
    /// a drawn field has no constraint value
    MissingConstraintValue,
    /// more than one field is marked as the left field
    DuplicateLeftField,
    /// more than one field is marked as the right field
    DuplicateRightField,
    /// the drawn fields with the borders and bottom blocks need more lines
    /// than a `u16` counts
    TooTall,
    /// a bottom field is marked but no field title is given
    MissingFieldTitle,
    /// a bottom field is marked but the field title is empty
    EmptyFieldTitle,
}

/// The constraint kind that a constraint type names, in either of its two
/// spellings.
pub open spec fn spec_constraint_kind(s: Seq<char>) -> Result<ConstraintKind, PlanError> {
    if s == "Min"@ || s == "min"@ {
        Ok(ConstraintKind::Min)
    } else if s == "Max"@ || s == "max"@ {
        Ok(ConstraintKind::Max)
    } else if s == "Length"@ || s == "length"@ {
        Ok(ConstraintKind::Length)
    } else if s == "Percentage"@ || s == "percentage"@ {
        Ok(ConstraintKind::Percentage)
    } else if s == "Fill"@ || s == "fill"@ {
        Ok(ConstraintKind::Fill)
    } else if s == "Ratio"@ || s == "ratio"@ {
        Err(PlanError::RatioUnsupported)
    } else {
        Err(PlanError::UnknownConstraintType)
    }
}

/// A constraint type reads the same capitalised or not: `Min` and `min`,
/// `Max` and `max`, and so on, name the same kind.
pub proof fn lemma_constraint_type_capitalisation(s: Seq<char>)
    requires
        s == "min"@ || s == "max"@ || s == "length"@ || s == "percentage"@ || s == "fill"@ || s == "ratio"@,
    ensures
        spec_constraint_kind(spec_titlecase(s)) == spec_constraint_kind(s),
{
    reveal_strlit("min");
    reveal_strlit("Min");
    reveal_strlit("max");
    reveal_strlit("Max");
    reveal_strlit("length");
    reveal_strlit("Length");
    reveal_strlit("percentage");
    reveal_strlit("Percentage");
    reveal_strlit("fill");
    reveal_strlit("Fill");
    reveal_strlit("ratio");
    reveal_strlit("Ratio");
    assert("Max"@[1] != "Min"@[1] && "max"@[1] != "min"@[1] && "max"@[0] != "Min"@[0] && "Max"@[0] != "min"@[0]);
    assert("length"@[0] != "Length"@[0] && "percentage"@[0] != "Percentage"@[0]);
    assert("fill"@[0] != "Fill"@[0] && "ratio"@[0] != "Ratio"@[0]);
    if s == "min"@ {
        assert(spec_titlecase(s) =~= "Min"@);
        assert(spec_constraint_kind("Min"@) == Ok::<ConstraintKind, PlanError>(ConstraintKind::Min));
        assert(spec_constraint_kind("min"@) == Ok::<ConstraintKind, PlanError>(ConstraintKind::Min));
    } else if s == "max"@ {
        assert(spec_titlecase(s) =~= "Max"@);
        assert(spec_constraint_kind("Max"@) == Ok::<ConstraintKind, PlanError>(ConstraintKind::Max));
        assert(spec_constraint_kind("max"@) == Ok::<ConstraintKind, PlanError>(ConstraintKind::Max));
    } else if s == "length"@ {
        assert(spec_titlecase(s) =~= "Length"@);
        assert(spec_constraint_kind("Length"@) == Ok::<ConstraintKind, PlanError>(ConstraintKind::Length));
        assert(spec_constraint_kind("length"@) == Ok::<ConstraintKind, PlanError>(ConstraintKind::Length));
    } else if s == "percentage"@ {
        assert(spec_titlecase(s) =~= "Percentage"@);
        assert(spec_constraint_kind("Percentage"@) == Ok::<ConstraintKind, PlanError>(ConstraintKind::Percentage));
        assert(spec_constraint_kind("percentage"@) == Ok::<ConstraintKind, PlanError>(ConstraintKind::Percentage));
    } else if s == "fill"@ {
        assert(spec_titlecase(s) =~= "Fill"@);
        assert(spec_constraint_kind("Fill"@) == Ok::<ConstraintKind, PlanError>(ConstraintKind::Fill));
        assert(spec_constraint_kind("fill"@) == Ok::<ConstraintKind, PlanError>(ConstraintKind::Fill));
    } else {
        assert(spec_titlecase(s) =~= "Ratio"@);
        assert(spec_constraint_kind("Ratio"@) == Err::<ConstraintKind, PlanError>(PlanError::RatioUnsupported));
        assert(spec_constraint_kind("ratio"@) == Err::<ConstraintKind, PlanError>(PlanError::RatioUnsupported));
    }
}

/// `parse_constraint_type` reads a constraint type: `Min`, `Max`, `Length`,
/// `Percentage` or `Fill`, capitalised or not. `Ratio` is refused as
/// unsupported, anything else as unknown.
pub fn parse_constraint_type(s: &str) -> (r: Result<ConstraintKind, PlanError>)
    ensures
        r == spec_constraint_kind(s@),
{
    if str_eq(s, "Min") || str_eq(s, "min") {
        Ok(ConstraintKind::Min)
    } else if str_eq(s, "Max") || str_eq(s, "max") {
        Ok(ConstraintKind::Max)
    } else if str_eq(s, "Length") || str_eq(s, "length") {
        Ok(ConstraintKind::Length)
    } else if str_eq(s, "Percentage") || str_eq(s, "percentage") {
        Ok(ConstraintKind::Percentage)
    } else if str_eq(s, "Fill") || str_eq(s, "fill") {
        Ok(ConstraintKind::Fill)
    } else if str_eq(s, "Ratio") || str_eq(s, "ratio") {
        Err(PlanError::RatioUnsupported)
    } else {
        Err(PlanError::UnknownConstraintType)
    }
}

/// An ASCII lowercase letter.
pub open spec fn is_ascii_lower(c: char) -> bool {
    'a' as int <= c as int <= 'z' as int
}

/// The text with its first character made uppercase, when that is an ASCII
/// lowercase letter.
pub open spec fn spec_titlecase(s: Seq<char>) -> Seq<char> {
    if s.len() > 0 && is_ascii_lower(s[0]) {
        s.update(0, ((s[0] as int) - 32) as char)
    } else {
        s
    }
}

/// `to_ascii_titlecase` returns the text with its first character made
/// uppercase, when that is an ASCII lowercase letter; otherwise unchanged.
pub fn to_ascii_titlecase(s: &str) -> (r: String)
    ensures
        r@ == spec_titlecase(s@),
{
    let mut chars = chars_of(s);
    if chars.len() > 0 {
        let c = chars[0];
        if 'a' <= c && c <= 'z' {
            let upper = ((c as u8) - 32) as char;
            chars.set(0, upper);
        }
    }
    string_of(&chars)
}

/// `is_option` decides whether a type, given by the segments of its path
/// and whether it is qualified by a `Self` type, names `Option`: some
/// segment of an unqualified path is `Option`.
pub fn is_option(segments: &Vec<String>, qualified_self: bool) -> (b: bool)
    ensures
        b == (!qualified_self && exists|i: int| 0 <= i < segments@.len() && (#[trigger] segments@[i])@ == "Option"@),
{
    if qualified_self {
        return false;
    }
    let mut i: usize = 0;
    while i < segments.len()
        invariant
            i <= segments.len(),
            !qualified_self,
            forall|j: int| 0 <= j < i ==> (#[trigger] segments@[j])@ != "Option"@,
        decreases segments.len() - i,
    {
        if str_eq(segments[i].as_str(), "Option") {
            return true;
        }
        i += 1;
    }
    false
}

/// The attributes of one field of a widget's record, as read from its
/// source.
#[derive(Debug)]
pub struct FieldAttrs {
    /// the name of the field
    pub name: String,
    /// whether its type is an `Option`
    pub is_option: bool,
    /// the field is not drawn
    pub skip: bool,
    /// where the field is drawn, from the top
    pub display_order: Option<usize>,
    /// the constraint type, as written
    pub constraint_type: Option<String>,
    /// the constraint value
    pub constraint_value: Option<u16>,
    /// the widget that draws the field, if not a paragraph
    pub display_widget: Option<String>,
    /// the length of the field is shown in the left bottom block
    pub left_field: bool,
    /// the length of the field is shown in the right bottom block
    pub right_field: bool,
    /// the title of the bottom blocks
    pub field_title: Option<String>,
}

/// How one field is drawn.
#[derive(Debug)]
pub struct FieldPlan {
    /// where the field is drawn, from the top
    pub display_order: usize,
    /// the name of the field
    pub name: String,
    /// the title of its block
    pub title: String,
    /// the widget that draws it
    pub widget: String,
    /// whether it is optional (drawn as its default when missing)
    pub is_option: bool,
    /// the kind of its constraint
    pub constraint: ConstraintKind,
    /// the value of its constraint
    pub constraint_value: u16,
}

/// How a field is drawn: display order, name, title, widget, whether
/// optional, constraint kind and value.
pub type FieldPlanView = (usize, Seq<char>, Seq<char>, Seq<char>, bool, ConstraintKind, u16);

impl FieldPlan {
    /// How the field is drawn.
    pub open spec fn view(&self) -> FieldPlanView {
        (self.display_order, self.name@, self.title@, self.widget@, self.is_option, self.constraint, self.constraint_value)
    }
}

/// How the fields of a widget are drawn.
#[derive(Debug)]
pub struct WidgetPlan {
    /// the drawn fields, from the top
    pub fields: Vec<FieldPlan>,
    /// the height the widget needs, borders and bottom blocks included
    pub total_height: u16,
    /// the field whose length the left bottom block shows, if any
    pub left_field: Option<String>,
    /// the field whose length the right bottom block shows, if any
    pub right_field: Option<String>,
    /// the title of the bottom blocks, if any
    pub field_title: Option<String>,
}

/// The plan being built: the drawn fields by display order, the height so
/// far, the bottom fields and their title.
pub struct PlanModel {
    /// the drawn fields, by display order
    pub entries: Map<usize, FieldPlanView>,
    /// the height of the drawn fields so far
    pub total: int,
    /// the left bottom field, if any
    pub left: Option<Seq<char>>,
    /// the right bottom field, if any
    pub right: Option<Seq<char>>,
    /// the title of the bottom blocks, if any
    pub title: Option<Seq<char>>,
}

/// The empty plan.
pub open spec fn empty_model() -> PlanModel {
    PlanModel { entries: Map::empty(), total: 0, left: None, right: None, title: None }
}

/// The text of an optional string.
pub open spec fn opt_view(o: Option<String>) -> Option<Seq<char>> {
    match o {
        Some(s) => Some(s@),
        None => None,
    }
}

/// The plan after one more field: its constraint type must be known; a
/// field is the left or right bottom field at most once; a bottom or skipped
/// field is not drawn; a drawn field needs a display order, a constraint
/// type and value, replaces a field of the same display order, and adds its
/// constraint value to the height, which with the five lines of the borders
/// and bottom blocks must fit in a `u16`.
pub open spec fn field_step(m: PlanModel, f: FieldAttrs) -> Result<PlanModel, PlanError> {
    let kind = match f.constraint_type {
        Some(t) => Some(spec_constraint_kind(t@)),
        None => None,
    };
    if kind matches Some(Err(e)) {
        Err(kind.unwrap()->Err_0)
    } else if f.left_field && m.left is Some {
        Err(PlanError::DuplicateLeftField)
    } else if f.right_field && m.right is Some {
        Err(PlanError::DuplicateRightField)
    } else {
        let m1 = PlanModel {
            left: if f.left_field { Some(f.name@) } else { m.left },
            right: if f.right_field { Some(f.name@) } else { m.right },
            title: match f.field_title {
                Some(t) => Some(t@),
                None => m.title,
            },
            ..m
        };
        if f.left_field || f.right_field || f.skip {
            Ok(m1)
        } else if f.display_order is None {
            Err(PlanError::MissingDisplayOrder)
        } else if f.constraint_type is None {
            Err(PlanError::MissingConstraintType)
        } else if f.constraint_value is None {
            Err(PlanError::MissingConstraintValue)
        } else if m1.total + f.constraint_value.unwrap() + 5 > u16::MAX {
            Err(PlanError::TooTall)
        } else {
            let widget = match f.display_widget {
                Some(w) => w@,
                None => "Paragraph"@,
            };
            Ok(
                PlanModel {
                    entries: m1.entries.insert(
                        f.display_order.unwrap(),
                        (
                            f.display_order.unwrap(),
                            f.name@,
                            spec_titlecase(f.name@),
                            widget,
                            f.is_option,
                            kind.unwrap()->Ok_0,
                            f.constraint_value.unwrap(),
                        ),
                    ),
                    total: m1.total + f.constraint_value.unwrap(),
                    ..m1
                },
            )
        }
    }
}

/// The plan after the fields, in order, or the first error.
pub open spec fn plan_fold(fields: Seq<FieldAttrs>) -> Result<PlanModel, PlanError>
    decreases fields.len(),
{
    if fields.len() == 0 {
        Ok(empty_model())
    } else {
        match plan_fold(fields.drop_last()) {
            Ok(m) => field_step(m, fields.last()),
            Err(e) => Err(e),
        }
    }
}

/// The plan of the widget: the plan of its fields, whose bottom fields need
/// a title that is not empty, with five lines more for the borders and the
/// bottom blocks.
pub open spec fn spec_plan(fields: Seq<FieldAttrs>) -> Result<PlanModel, PlanError> {
    match plan_fold(fields) {
        Err(e) => Err(e),
        Ok(m) => if m.left is Some && m.title is None {
            Err(PlanError::MissingFieldTitle)
        } else if m.left is Some && m.title.unwrap().len() == 0 {
            Err(PlanError::EmptyFieldTitle)
        } else if m.right is Some && m.title is None {
            Err(PlanError::MissingFieldTitle)
        } else if m.right is Some && m.title.unwrap().len() == 0 {
            Err(PlanError::EmptyFieldTitle)
        } else {
            Ok(PlanModel { total: m.total + 5, ..m })
        },
    }
}

/// The drawn fields, in order of display, are those of the model.
pub open spec fn entries_match(s: Seq<FieldPlan>, m: Map<usize, FieldPlanView>) -> bool {
    &&& forall|i: int, j: int| 0 <= i < j < s.len() ==> (#[trigger] s[i]).display_order < (#[trigger] s[j]).display_order
    &&& forall|i: int| 0 <= i < s.len() ==> m.contains_key((#[trigger] s[i]).display_order) && m[s[i].display_order] == s[i].view()
    &&& forall|k: usize| #[trigger] m.contains_key(k) ==> exists|i: int| 0 <= i < s.len() && (#[trigger] s[i]).display_order == k
}

/// The plan is the model.
pub open spec fn plan_matches(p: WidgetPlan, m: PlanModel) -> bool {
    &&& entries_match(p.fields@, m.entries)
    &&& p.total_height == m.total
    &&& opt_view(p.left_field) == m.left
    &&& opt_view(p.right_field) == m.right
    &&& opt_view(p.field_title) == m.title
}

/// Puts the field into the list ordered by display order, in place of a
/// field of the same display order.
#[verifier::spinoff_prover]
#[verifier::rlimit(60)]
fn put_field(v: &mut Vec<FieldPlan>, fp: FieldPlan, Ghost(m): Ghost<Map<usize, FieldPlanView>>)
    requires
        entries_match(old(v)@, m),
    ensures
        entries_match(final(v)@, m.insert(fp.display_order, fp.view())),
{
    let mut p: usize = 0;
    while p < v.len() && v[p].display_order < fp.display_order
        invariant
            p <= v.len(),
            forall|j: int| 0 <= j < p ==> (#[trigger] v@[j]).display_order < fp.display_order,
        decreases v.len() - p,
    {
        p += 1;
    }
    let ghost old_v = v@;
    let ghost fv = fp.view();
    let ghost k = fp.display_order;
    let ghost nm = m.insert(k, fv);
    if p < v.len() && v[p].display_order == fp.display_order {
        v.set(p, fp);
        proof {
            assert forall|i: int| 0 <= i < v@.len() implies nm.contains_key((#[trigger] v@[i]).display_order)
                && nm[v@[i].display_order] == v@[i].view() by {
                if i != p {
                    assert(v@[i] == old_v[i]);
                }
            }
            assert forall|q: usize| #[trigger] nm.contains_key(q) implies exists|i: int| 0 <= i < v@.len() && (#[trigger] v@[i]).display_order == q by {
                if q == k {
                    assert(v@[p as int].display_order == q);
                } else {
                    let i = choose|i: int| 0 <= i < old_v.len() && (#[trigger] old_v[i]).display_order == q;
                    if i != p {
                        assert(v@[i] == old_v[i]);
                    }
                }
            }
            assert forall|i: int, j: int| 0 <= i < j < v@.len() implies (#[trigger] v@[i]).display_order < (#[trigger] v@[j]).display_order by {
                if i != p && j != p {
                    assert(v@[i] == old_v[i] && v@[j] == old_v[j]);
                } else if i == p {
                    assert(v@[j] == old_v[j]);
                } else {
                    assert(v@[i] == old_v[i]);
                }
            }
        }
    } else {
        v.insert(p, fp);
        proof {
            assert(forall|j: int| p <= j < old_v.len() ==> (#[trigger] old_v[j]).display_order > k) by {
                assert forall|j: int| p <= j < old_v.len() implies (#[trigger] old_v[j]).display_order > k by {
                    if j > p {
                        assert(old_v[p as int].display_order < old_v[j].display_order);
                    }
                }
            }
            assert forall|i: int| 0 <= i < v@.len() implies nm.contains_key((#[trigger] v@[i]).display_order)
                && nm[v@[i].display_order] == v@[i].view() by {
                if i < p {
                    assert(v@[i] == old_v[i]);
                } else if i > p {
                    assert(v@[i] == old_v[i - 1]);
                }
            }
            assert forall|q: usize| #[trigger] nm.contains_key(q) implies exists|i: int| 0 <= i < v@.len() && (#[trigger] v@[i]).display_order == q by {
                if q == k {
                    assert(v@[p as int].display_order == q);
                } else {
                    let i = choose|i: int| 0 <= i < old_v.len() && (#[trigger] old_v[i]).display_order == q;
                    if i < p {
                        assert(v@[i] == old_v[i]);
                    } else {
                        assert(v@[i + 1] == old_v[i]);
                    }
                }
            }
            assert forall|i: int, j: int| 0 <= i < j < v@.len() implies (#[trigger] v@[i]).display_order < (#[trigger] v@[j]).display_order by {
                if j < p {
                    assert(v@[i] == old_v[i] && v@[j] == old_v[j]);
                } else if i < p && j == p {
                    assert(v@[i] == old_v[i]);
                } else if i < p {
                    assert(v@[i] == old_v[i] && v@[j] == old_v[j - 1]);
                } else if i == p {
                    assert(v@[j] == old_v[j - 1]);
                } else {
                    assert(v@[i] == old_v[i - 1] && v@[j] == old_v[j - 1]);
                }
            }
        }
    }
}

/// `plan_widget` lays out the fields of a widget's record from their
/// attributes, as the widget derive does: each drawn field gets a block
/// titled with its name in title case, ordered by display order, a later
/// field replacing an earlier one of the same display order; the height is
/// the sum of the constraint values of the drawn fields, plus five lines for
/// the borders and the bottom blocks, and must fit in a `u16`. Within one field, an unknown
/// constraint type is reported before a second bottom field.
pub fn plan_widget(fields: &Vec<FieldAttrs>) -> (r: Result<WidgetPlan, PlanError>)
    ensures
        match r {
            Ok(p) => spec_plan(fields@) matches Ok(m) && plan_matches(p, m),
            Err(e) => spec_plan(fields@) == Err::<PlanModel, PlanError>(e),
        },
{
    let mut out: Vec<FieldPlan> = Vec::new();
    let mut total: u16 = 0;
    let mut left: Option<String> = None;
    let mut right: Option<String> = None;
    let mut title: Option<String> = None;
    let mut i: usize = 0;
    assert(fields@.take(0) =~= Seq::<FieldAttrs>::empty());
    while i < fields.len()
        invariant
            i <= fields.len(),
            plan_fold(fields@.take(i as int)) matches Ok(m) && plan_matches(
                WidgetPlan { fields: out, total_height: total, left_field: left, right_field: right, field_title: title },
                m,
            ) && m.total + 5 <= u16::MAX,
        decreases fields.len() - i,
    {
        let ghost m = plan_fold(fields@.take(i as int))->Ok_0;
        let f = &fields[i];
        proof {
            assert(fields@.take(i as int + 1).drop_last() =~= fields@.take(i as int));
            assert(fields@.take(i as int + 1).last() == *f);
        }
        let kind = match &f.constraint_type {
            Some(t) => match parse_constraint_type(t.as_str()) {
                Ok(k) => Some(k),
                Err(e) => {
                    proof {
                        lemma_fold_error_stays(fields@, i as int + 1);
                    }
                    return Err(e);
                },
            },
            None => None,
        };
        if f.left_field && left.is_some() {
            proof {
                lemma_fold_error_stays(fields@, i as int + 1);
            }
            return Err(PlanError::DuplicateLeftField);
        }
        if f.right_field && right.is_some() {
            proof {
                lemma_fold_error_stays(fields@, i as int + 1);
            }
            return Err(PlanError::DuplicateRightField);
        }
        if f.left_field {
            left = Some(f.name.clone());
        }
        if f.right_field {
            right = Some(f.name.clone());
        }
        match &f.field_title {
            Some(t) => {
                title = Some(t.clone());
            },
            None => {},
        }
        if !(f.left_field || f.right_field || f.skip) {
            let order = match f.display_order {
                Some(o) => o,
                None => {
                    proof {
                        lemma_fold_error_stays(fields@, i as int + 1);
                    }
                    return Err(PlanError::MissingDisplayOrder);
                },
            };
            let kind = match kind {
                Some(k) => k,
                None => {
                    proof {
                        lemma_fold_error_stays(fields@, i as int + 1);
                    }
                    return Err(PlanError::MissingConstraintType);
                },
            };
            let value = match f.constraint_value {
                Some(v) => v,
                None => {
                    proof {
                        lemma_fold_error_stays(fields@, i as int + 1);
                    }
                    return Err(PlanError::MissingConstraintValue);
                },
            };
            if value > u16::MAX - 5 - total {
                proof {
                    lemma_fold_error_stays(fields@, i as int + 1);
                }
                return Err(PlanError::TooTall);
            }
            total = total + value;
            let widget = match &f.display_widget {
                Some(w) => w.clone(),
                None => String::from_str("Paragraph"),
            };
            let fp = FieldPlan {
                display_order: order,
                name: f.name.clone(),
                title: to_ascii_titlecase(f.name.as_str()),
                widget,
                is_option: f.is_option,
                constraint: kind,
                constraint_value: value,
            };
            put_field(&mut out, fp, Ghost(m.entries));
        }
        i += 1;
    }
    assert(fields@.take(i as int) =~= fields@);
    let ghost m = plan_fold(fields@)->Ok_0;
    if left.is_some() {
        match &title {
            None => return Err(PlanError::MissingFieldTitle),
            Some(t) => {
                if t.as_str().unicode_len() == 0 {
                    return Err(PlanError::EmptyFieldTitle);
                }
            },
        }
    }
    if right.is_some() {
        match &title {
            None => return Err(PlanError::MissingFieldTitle),
            Some(t) => {
                if t.as_str().unicode_len() == 0 {
                    return Err(PlanError::EmptyFieldTitle);
                }
            },
        }
    }
    Ok(WidgetPlan { fields: out, total_height: total + 5, left_field: left, right_field: right, field_title: title })
}

/// Two fields agree in everything but how their constraint types are
/// written, and those name the same kind (as `min` and `Min` do).
pub open spec fn same_but_spelling(a: FieldAttrs, b: FieldAttrs) -> bool {
    &&& a.name@ == b.name@
    &&& a.is_option == b.is_option
    &&& a.skip == b.skip
    &&& a.display_order == b.display_order
    &&& a.constraint_value == b.constraint_value
    &&& opt_view(a.display_widget) == opt_view(b.display_widget)
    &&& a.left_field == b.left_field
    &&& a.right_field == b.right_field
    &&& opt_view(a.field_title) == opt_view(b.field_title)
    &&& match (a.constraint_type, b.constraint_type) {
        (Some(x), Some(y)) => spec_constraint_kind(x@) == spec_constraint_kind(y@),
        (None, None) => true,
        _ => false,
    }
}

/// How a constraint type is spelt does not change the plan: fields that
/// differ only in writing `min` for `Min` (and the like) are laid out alike.
pub proof fn lemma_spelling_gives_same_plan(a: Seq<FieldAttrs>, b: Seq<FieldAttrs>)
    requires
        a.len() == b.len(),
        forall|i: int| 0 <= i < a.len() ==> same_but_spelling(#[trigger] a[i], b[i]),
    ensures
        spec_plan(a) == spec_plan(b),
{
    lemma_spelling_same_fold(a, b);
}

proof fn lemma_spelling_same_fold(a: Seq<FieldAttrs>, b: Seq<FieldAttrs>)
    requires
        a.len() == b.len(),
        forall|i: int| 0 <= i < a.len() ==> same_but_spelling(#[trigger] a[i], b[i]),
    ensures
        plan_fold(a) == plan_fold(b),
    decreases a.len(),
{
    if a.len() > 0 {
        let a0 = a.drop_last();
        let b0 = b.drop_last();
        assert forall|i: int| 0 <= i < a0.len() implies same_but_spelling(#[trigger] a0[i], b0[i]) by {
            assert(a0[i] == a[i] && b0[i] == b[i]);
        }
        lemma_spelling_same_fold(a0, b0);
        assert(same_but_spelling(a[a.len() - 1], b[b.len() - 1]));
        match plan_fold(a0) {
            Ok(m) => {
                assert(field_step(m, a.last()) == field_step(m, b.last()));
            },
            Err(_) => {},
        }
    }
}

/// Once a prefix of the fields fails, the whole list fails with the same
/// error.
proof fn lemma_fold_error_stays(fields: Seq<FieldAttrs>, i: int)
    requires
        0 <= i <= fields.len(),
        plan_fold(fields.take(i)) is Err,
    ensures
        spec_plan(fields) == Err::<PlanModel, PlanError>(plan_fold(fields.take(i))->Err_0),
    decreases fields.len() - i,
{
    if i < fields.len() {
        assert(fields.take(i + 1).drop_last() =~= fields.take(i));
        lemma_fold_error_stays(fields, i + 1);
    } else {
        assert(fields.take(i) =~= fields);
    }
}

/// The constraints of the drawn fields, from the top, and the bottom
/// blocks' line.
pub open spec fn spec_layout_constraints(fields: Seq<FieldPlan>) -> Seq<(ConstraintKind, u16)> {
    fields.map_values(|f: FieldPlan| (f.constraint, f.constraint_value)).push((ConstraintKind::Length, 3u16))
}

/// `layout_constraints` lists the constraints of the widget's area, from
/// the top: one for each drawn field, then three lines for the bottom
/// blocks. The area must be at least as high as the widget needs (the
/// widget does not scroll).
pub fn layout_constraints(plan: &WidgetPlan, area_height: u16) -> (r: Vec<(ConstraintKind, u16)>)
    requires
        area_height >= plan.total_height,
    ensures
        r@ == spec_layout_constraints(plan.fields@),
{
    let mut r: Vec<(ConstraintKind, u16)> = Vec::new();
    let mut i: usize = 0;
    while i < plan.fields.len()
        invariant
            i <= plan.fields.len(),
            r@ == plan.fields@.take(i as int).map_values(|f: FieldPlan| (f.constraint, f.constraint_value)),
        decreases plan.fields.len() - i,
    {
        r.push((plan.fields[i].constraint, plan.fields[i].constraint_value));
        proof {
            assert(plan.fields@.take(i as int + 1).map_values(|f: FieldPlan| (f.constraint, f.constraint_value))
                =~= plan.fields@.take(i as int).map_values(|f: FieldPlan| (f.constraint, f.constraint_value)).push(
                (plan.fields@[i as int].constraint, plan.fields@[i as int].constraint_value),
            ));
        }
        i += 1;
    }
    assert(plan.fields@.take(i as int) =~= plan.fields@);
    r.push((ConstraintKind::Length, 3));
    r
}

} // verus!
