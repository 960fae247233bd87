//! The clickable button grid that mirrors the controller byte.
use vstd::prelude::*;
use crate::control::is_held;

verus! {

/// How a button is drawn.
#[derive(Clone, Copy, Debug, PartialEq, Eq, Structural)]
pub enum Style {
    /// A controller button that is released.
    Primary,
    /// A filler slot or a macro action.
    Secondary,
    /// A controller button that is held.
    Success,
}

/// One button of the grid.
#[derive(Clone, Debug)]
pub struct ButtonView {
    pub custom_id: String,
    pub label: String,
    pub style: Style,
    pub disabled: bool,
}

/// The mathematical content of a button: token, label, style, disabled.
pub struct ButtonSpec {
    pub custom_id: Seq<char>,
    pub label: Seq<char>,
    pub style: Style,
    pub disabled: bool,
}

impl ButtonView {
    pub open spec fn view(&self) -> ButtonSpec {
        ButtonSpec {
            custom_id: self.custom_id@,
            label: self.label@,
            style: self.style,
            disabled: self.disabled,
        }
    }
}

/// The grid as rows of button contents.
pub open spec fn rows_view(rows: Seq<Vec<ButtonView>>) -> Seq<Seq<ButtonSpec>> {
    rows.map_values(|row: Vec<ButtonView>| row@.map_values(|b: ButtonView| b.view()))
}

/// A disabled filler slot.
pub open spec fn slot_spec(id: Seq<char>) -> ButtonSpec {
    ButtonSpec { custom_id: id, label: "_"@, style: Style::Secondary, disabled: true }
}

/// A controller button, styled by whether its bit is set.
pub open spec fn key_spec(id: Seq<char>, label: Seq<char>, bit: u8, input: u8) -> ButtonSpec {
    ButtonSpec {
        custom_id: id,
        label: label,
        style: if is_held(input, bit) {
            Style::Success
        } else {
            Style::Primary
        },
        disabled: false,
    }
}

/// A macro action button.
pub open spec fn action_spec(id: Seq<char>, label: Seq<char>) -> ButtonSpec {
    ButtonSpec { custom_id: id, label: label, style: Style::Secondary, disabled: false }
}

/// The full grid for a controller byte: a directional pad with A and B,
/// then the two macro actions.
pub open spec fn layout_spec(input: u8) -> Seq<Seq<ButtonSpec>> {
    seq![
        seq![
            slot_spec("00"@),
            key_spec("up"@, "⬆"@, 4, input),
            slot_spec("02"@),
            slot_spec("03"@),
            slot_spec("04"@),
        ],
        seq![
            key_spec("left"@, "⬅"@, 6, input),
            slot_spec("11"@),
            key_spec("right"@, "➡"@, 7, input),
            slot_spec("13"@),
            key_spec("a"@, "🅰️"@, 0, input),
        ],
        seq![
            slot_spec("20"@),
            key_spec("down"@, "⬇"@, 5, input),
            slot_spec("22"@),
            key_spec("b"@, "🅱️"@, 1, input),
            slot_spec("24"@),
        ],
        seq![action_spec("next"@, "Next"@), action_spec("reset"@, "Reset"@)],
    ]
}

fn slot(id: &str) -> (r: ButtonView)
    ensures
        r.view() == slot_spec(id@),
{
    ButtonView {
        custom_id: id.to_owned(),
        label: "_".to_owned(),
        style: Style::Secondary,
        disabled: true,
    }
}

fn key(id: &str, label: &str, bit: u8, input: u8) -> (r: ButtonView)
    requires
        bit < 8,
    ensures
        r.view() == key_spec(id@, label@, bit, input),
{
    let style = if input & (1u8 << bit) != 0 {
        Style::Success
    } else {
        Style::Primary
    };
    ButtonView { custom_id: id.to_owned(), label: label.to_owned(), style, disabled: false }
}

fn action(id: &str, label: &str) -> (r: ButtonView)
    ensures
        r.view() == action_spec(id@, label@),
{
    ButtonView {
        custom_id: id.to_owned(),
        label: label.to_owned(),
        style: Style::Secondary,
        disabled: false,
    }
}

/// Builds the button grid for a controller byte.
pub fn components(input: u8) -> (r: Vec<Vec<ButtonView>>)
    ensures
        rows_view(r@) == layout_spec(input),
{
    let row0 = vec![slot("00"), key("up", "⬆", 4, input), slot("02"), slot("03"), slot("04")];
    let row1 = vec![
        key("left", "⬅", 6, input),
        slot("11"),
        key("right", "➡", 7, input),
        slot("13"),
        key("a", "🅰️", 0, input),
    ];
    let row2 = vec![slot("20"), key("down", "⬇", 5, input), slot("22"), key("b", "🅱️", 1, input), slot("24")];
    let row3 = vec![action("next", "Next"), action("reset", "Reset")];
    let rows = vec![row0, row1, row2, row3];
    proof {
        let l = layout_spec(input);
        let v = rows_view(rows@);
        assert(v[0] =~= l[0]);
        assert(v[1] =~= l[1]);
        assert(v[2] =~= l[2]);
        assert(v[3] =~= l[3]);
        assert(v =~= l);
    }
    rows
}

} // verus!
