//! Keyboard focus of text inputs, and the pointer shown over them.

use vstd::prelude::*;

verus! {

/// A text input's frame as a click sees it.
#[derive(Clone, Copy)]
pub struct InputWrapper {
    /// the input inside the frame
    pub input: u64,
    pub pressed: bool,
    /// whether the value is being dragged with the input's drag handle
    pub dragging: bool,
}

/// The input focused after a left click: the last pressed frame that is
/// not being dragged takes the focus; without such a frame, or without a
/// click, the focus stays.
pub open spec fn click_focus_spec(focus: Option<u64>, left_just_pressed: bool, wrappers: Seq<InputWrapper>, n: int) -> Option<u64>
    decreases n,
{
    if !left_just_pressed || n <= 0 {
        focus
    } else {
        let w = wrappers[n - 1];
        if w.pressed && !w.dragging {
            Some(w.input)
        } else {
            click_focus_spec(focus, left_just_pressed, wrappers, n - 1)
        }
    }
}

proof fn lemma_click_focus_step(focus: Option<u64>, wrappers: Seq<InputWrapper>, n: int, current: Option<u64>)
    requires
        0 <= n < wrappers.len(),
        current == click_focus_spec(focus, true, wrappers, n),
    ensures
        click_focus_spec(focus, true, wrappers, n + 1) == (if wrappers[n].pressed
            && !wrappers[n].dragging {
            Some(wrappers[n].input)
        } else {
            current
        }),
{
}

/// Whether a click in a frame asks for its input's focus: the frame was
/// pressed and its value is not being dragged.
pub open spec fn takes_focus(w: InputWrapper) -> bool {
    w.pressed && !w.dragging
}

/// Without a click the focus stays. With one, the focus goes to the input
/// of the last frame that takes it, and stays where it was when no frame
/// does.
pub proof fn lemma_click_focus_last(focus: Option<u64>, left_just_pressed: bool, wrappers: Seq<InputWrapper>, n: int)
    requires
        0 <= n <= wrappers.len(),
    ensures
        !left_just_pressed ==> click_focus_spec(focus, left_just_pressed, wrappers, n) == focus,
        (forall|j: int| 0 <= j < n ==> !takes_focus(#[trigger] wrappers[j])) ==> click_focus_spec(
            focus,
            left_just_pressed,
            wrappers,
            n,
        ) == focus,
        forall|i: int|
            0 <= i < n && left_just_pressed && takes_focus(#[trigger] wrappers[i]) && (forall|j: int|
                i < j < n ==> !takes_focus(#[trigger] wrappers[j])) ==> click_focus_spec(
                focus,
                left_just_pressed,
                wrappers,
                n,
            ) == Some(wrappers[i].input),
    decreases n,
{
    if n > 0 {
        lemma_click_focus_last(focus, left_just_pressed, wrappers, n - 1);
        assert forall|i: int|
            0 <= i < n && left_just_pressed && takes_focus(#[trigger] wrappers[i]) && (forall|j: int|
                i < j < n ==> !takes_focus(#[trigger] wrappers[j])) implies click_focus_spec(
                focus,
                left_just_pressed,
                wrappers,
                n,
            ) == Some(wrappers[i].input) by {
            if i < n - 1 {
                assert(!takes_focus(wrappers[n - 1]));
            }
        }
    }
}

/// A left click focuses the input whose frame it pressed (see
/// `click_focus_spec`).
pub fn handle_click_to_focus(focus: &mut Option<u64>, left_just_pressed: bool, wrappers: &[InputWrapper])
    ensures
        *final(focus) == click_focus_spec(*old(focus), left_just_pressed, wrappers@, wrappers@.len() as int),
{
    if !left_just_pressed {
        return;
    }
    let ghost start = *focus;
    let mut i: usize = 0;
    while i < wrappers.len()
        invariant
            left_just_pressed,
            i <= wrappers@.len(),
            *focus == click_focus_spec(start, left_just_pressed, wrappers@, i as int),
        decreases wrappers@.len() - i,
    {
        let w = wrappers[i];
        proof {
            lemma_click_focus_step(start, wrappers@, i as int, *focus);
        }
        if w.pressed && !w.dragging {
            *focus = Some(w.input);
        }
        i = i + 1;
    }
}

/// The focused input loses the focus on a click outside its frame, or on
/// Escape or Enter.
pub fn handle_unfocus(
    focus: &mut Option<u64>,
    any_mouse_just_pressed: bool,
    pointer_outside_frame: bool,
    escape_or_enter: bool,
)
    ensures
        *final(focus) == (if (any_mouse_just_pressed && pointer_outside_frame) || escape_or_enter {
            None
        } else {
            *old(focus)
        }),
{
    if focus.is_none() {
        return;
    }
    let clicked_outside = any_mouse_just_pressed && pointer_outside_frame;
    if clicked_outside || escape_or_enter {
        *focus = None;
    }
}

/// The pointer shown over text inputs.
#[derive(Clone, Copy, Debug, PartialEq, Eq, Structural)]
pub enum InputCursor {
    /// over a drag handle, or while dragging a value
    ColResize,
    /// over a text input
    Text,
}

/// A text input's frame as the pointer sees it.
#[derive(Clone, Copy)]
pub struct CursorWrapper {
    pub hovered: bool,
    /// the drag handle's state: dragging, hovered; absent when it has none
    pub hitbox: Option<(bool, bool)>,
}

/// The pointer over the inputs: decided by the first frame, in order, that
/// decides anything; the default pointer when none does.
pub open spec fn cursor_spec(wrappers: Seq<CursorWrapper>) -> Option<InputCursor>
    decreases wrappers.len(),
{
    if wrappers.len() == 0 {
        None
    } else {
        let w = wrappers[0];
        let here = match w.hitbox {
            Some((dragging, hovered)) if dragging || hovered => Some(InputCursor::ColResize),
            _ => if w.hovered {
                Some(InputCursor::Text)
            } else {
                None
            },
        };
        match here {
            Some(c) => Some(c),
            None => cursor_spec(wrappers.drop_first()),
        }
    }
}

/// Whether a frame's drag handle is dragged or hovered.
pub open spec fn drag_handle_active(w: CursorWrapper) -> bool {
    w.hitbox matches Some((dragging, hovered)) && (dragging || hovered)
}

/// The pointer is decided by the first frame whose drag handle is dragged
/// or hovered, or that is hovered: the resize pointer for an active drag
/// handle, else the text pointer; the default pointer exactly when no frame
/// is either.
pub proof fn lemma_cursor_first_frame(wrappers: Seq<CursorWrapper>)
    ensures
        cursor_spec(wrappers) is None <==> forall|j: int|
            0 <= j < wrappers.len() ==> !drag_handle_active(#[trigger] wrappers[j]) && !wrappers[j].hovered,
        cursor_spec(wrappers) == Some(InputCursor::ColResize) ==> exists|i: int|
            0 <= i < wrappers.len() && #[trigger] drag_handle_active(wrappers[i]) && forall|j: int|
                0 <= j < i ==> !drag_handle_active(#[trigger] wrappers[j]) && !wrappers[j].hovered,
        cursor_spec(wrappers) == Some(InputCursor::Text) ==> exists|i: int|
            0 <= i < wrappers.len() && !drag_handle_active(wrappers[i]) && (#[trigger] wrappers[i]).hovered
                && forall|j: int|
                0 <= j < i ==> !drag_handle_active(#[trigger] wrappers[j]) && !wrappers[j].hovered,
    decreases wrappers.len(),
{
    if wrappers.len() > 0 {
        let rest = wrappers.drop_first();
        lemma_cursor_first_frame(rest);
        assert forall|j: int| 0 <= j < rest.len() implies #[trigger] rest[j] == wrappers[j + 1] by {}
        let w = wrappers[0];
        if !drag_handle_active(w) && !w.hovered {
            if cursor_spec(wrappers) is None {
                assert forall|j: int| 0 <= j < wrappers.len() implies !drag_handle_active(
                    #[trigger] wrappers[j],
                ) && !wrappers[j].hovered by {
                    if j > 0 {
                        assert(wrappers[j] == rest[j - 1]);
                    }
                }
            }
            if cursor_spec(wrappers) == Some(InputCursor::ColResize) {
                let i = choose|i: int|
                    0 <= i < rest.len() && #[trigger] drag_handle_active(rest[i]) && forall|j: int|
                        0 <= j < i ==> !drag_handle_active(#[trigger] rest[j]) && !rest[j].hovered;
                assert(drag_handle_active(wrappers[i + 1]));
                assert forall|j: int| 0 <= j < i + 1 implies !drag_handle_active(#[trigger] wrappers[j])
                    && !wrappers[j].hovered by {
                    if j > 0 {
                        assert(wrappers[j] == rest[j - 1]);
                    }
                }
            }
            if cursor_spec(wrappers) == Some(InputCursor::Text) {
                let i = choose|i: int|
                    0 <= i < rest.len() && !drag_handle_active(rest[i]) && (#[trigger] rest[i]).hovered
                        && forall|j: int|
                        0 <= j < i ==> !drag_handle_active(#[trigger] rest[j]) && !rest[j].hovered;
                assert(wrappers[i + 1].hovered);
                assert forall|j: int| 0 <= j < i + 1 implies !drag_handle_active(#[trigger] wrappers[j])
                    && !wrappers[j].hovered by {
                    if j > 0 {
                        assert(wrappers[j] == rest[j - 1]);
                    }
                }
            }
        } else if drag_handle_active(w) {
            assert(drag_handle_active(wrappers[0]));
        } else {
            assert(wrappers[0].hovered);
        }
    }
}

/// The pointer to show over the text inputs (see `cursor_spec`).
pub fn handle_cursor(wrappers: &[CursorWrapper]) -> (r: Option<InputCursor>)
    ensures
        r == cursor_spec(wrappers@),
{
    let mut i: usize = 0;
    assert(wrappers@.subrange(0, wrappers@.len() as int) =~= wrappers@);
    while i < wrappers.len()
        invariant
            i <= wrappers@.len(),
            cursor_spec(wrappers@) == cursor_spec(wrappers@.subrange(i as int, wrappers@.len() as int)),
        decreases wrappers@.len() - i,
    {
        let w = wrappers[i];
        assert(wrappers@.subrange(i as int, wrappers@.len() as int).drop_first() =~= wrappers@.subrange(
            i + 1,
            wrappers@.len() as int,
        ));
        match w.hitbox {
            Some((dragging, hovered)) => {
                if dragging || hovered {
                    return Some(InputCursor::ColResize);
                }
            },
            None => {},
        }
        if w.hovered {
            return Some(InputCursor::Text);
        }
        i = i + 1;
    }
    None
}

} // verus!
