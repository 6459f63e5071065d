use vstd::prelude::*;

verus! {

/// How a widget stands to the pointer.
#[derive(Clone, Copy, Debug, PartialEq, Eq, Structural)]
pub enum UiState {
    Normal,
    Hover,
    Active,
    Disabled,
}

/// Where a line of text lies relative to its anchor.
#[derive(Clone, Copy, Debug, PartialEq, Eq, Structural)]
pub enum TextAlignment {
    Left,
    Center,
    Right,
}

/// What a button does in one frame.
#[derive(Clone, Copy, Debug, PartialEq, Eq, Structural)]
pub struct ButtonFrame {
    /// The button shows as hovered.
    pub hover: bool,
    /// The button shows as pressed.
    pub press: bool,
    /// The button's action runs.
    pub click: bool,
}

/// The part of a button that decides.
#[derive(Clone, Copy, Debug, PartialEq, Eq, Structural)]
pub struct UiButton {
    pub disabled: bool,
}

impl UiButton {
    /// What the button does in a frame in which the pointer is over it or not,
    /// the mouse button is held down or not, and was pressed in this frame or
    /// not. A disabled button shows nothing and does nothing.
    pub open spec fn frame(self, over: bool, down: bool, pressed: bool) -> ButtonFrame {
        ButtonFrame {
            hover: !self.disabled && over,
            press: !self.disabled && over && down,
            click: !self.disabled && over && pressed,
        }
    }

    pub fn update(&self, over: bool, down: bool, pressed: bool) -> (frame: ButtonFrame)
        ensures
            frame == self.frame(over, down, pressed),
    {
        if self.disabled {
            ButtonFrame { hover: false, press: false, click: false }
        } else {
            ButtonFrame { hover: over, press: over && down, click: over && pressed }
        }
    }
}

/// The part of a checkbox that decides.
#[derive(Clone, Copy, Debug, PartialEq, Eq, Structural)]
pub struct UiCheckbox {
    pub checked: bool,
}

impl UiCheckbox {
    /// Takes one frame's input: a press on the box flips it. The result says
    /// whether the box changed, so that whoever listens is told.
    pub fn update(&mut self, over: bool, pressed: bool) -> (changed: bool)
        ensures
            changed == (over && pressed),
            final(self).checked == (old(self).checked != changed),
    {
        if pressed && over {
            self.checked = !self.checked;
            true
        } else {
            false
        }
    }
}

/// The part of a slider that decides.
#[derive(Clone, Copy, Debug, PartialEq, Eq, Structural)]
pub struct UiSlider {
    pub dragging: bool,
}

impl UiSlider {
    /// Takes one frame's input: a press begins a drag if it is on the handle
    /// and ends one if it is not; a release ends any drag. The result says
    /// whether the handle follows the pointer in this frame.
    pub fn update(&mut self, over_handle: bool, pressed: bool, released: bool) -> (dragging: bool)
        ensures
            dragging == final(self).dragging,
            final(self).dragging == if released {
                false
            } else if pressed {
                over_handle
            } else {
                old(self).dragging
            },
    {
        if pressed {
            self.dragging = over_handle;
        }
        if released {
            self.dragging = false;
        }
        self.dragging
    }
}

/// Where the pointer is relative to a dropdown, and what the mouse button did.
#[derive(Clone, Copy, Debug, PartialEq, Eq, Structural)]
pub struct DropdownInput {
    /// The pointer is over the button of the dropdown.
    pub over_button: bool,
    /// The pointer is over the button or the list of options below it.
    pub over_dropdown: bool,
    /// The pointer is below the button.
    pub over_options: bool,
    /// The row of the list that the pointer is in, counted from the top.
    pub option_index: usize,
    /// The mouse button was pressed in this frame.
    pub pressed: bool,
}

/// What a dropdown asks for after one frame.
#[derive(Clone, Copy, Debug, PartialEq, Eq, Structural)]
pub struct DropdownOutcome {
    /// The dropdown has just opened and is to be brought to the front.
    pub raise: bool,
    /// The option that was chosen in this frame, if one was.
    pub chosen: Option<usize>,
}

/// The part of a dropdown that decides.
#[derive(Clone, Copy, Debug, PartialEq, Eq, Structural)]
pub struct UiDropdown {
    /// The number of options.
    pub options: usize,
    pub selected_index: usize,
    pub is_open: bool,
    pub hover_index: Option<usize>,
}

impl UiDropdown {
    /// The dropdown after one frame's input. A press on the button opens or
    /// closes the list and does nothing else. While the list is open, the
    /// option under the pointer is marked, and a press on it chooses it and
    /// closes the list; a press outside the dropdown closes the list.
    pub open spec fn after(self, input: DropdownInput) -> UiDropdown {
        if input.over_button && input.pressed {
            UiDropdown { is_open: !self.is_open, ..self }
        } else if !self.is_open {
            self
        } else if input.over_dropdown {
            if input.over_options && input.option_index < self.options {
                if input.pressed {
                    UiDropdown {
                        selected_index: input.option_index,
                        is_open: false,
                        hover_index: Some(input.option_index),
                        ..self
                    }
                } else {
                    UiDropdown { hover_index: Some(input.option_index), ..self }
                }
            } else {
                self
            }
        } else if input.pressed {
            UiDropdown { is_open: false, ..self }
        } else {
            self
        }
    }

    /// What the dropdown asks for after one frame's input.
    pub open spec fn outcome(self, input: DropdownInput) -> DropdownOutcome {
        DropdownOutcome {
            raise: input.over_button && input.pressed && !self.is_open,
            chosen: if !(input.over_button && input.pressed) && self.is_open && input.over_dropdown
                && input.over_options && input.option_index < self.options && input.pressed {
                Some(input.option_index)
            } else {
                None
            },
        }
    }

    /// A closed dropdown of `options` options with the first one selected.
    pub fn new(options: usize) -> (dropdown: UiDropdown)
        ensures
            dropdown == (UiDropdown { options, selected_index: 0, is_open: false, hover_index: None }),
    {
        UiDropdown { options, selected_index: 0, is_open: false, hover_index: None }
    }

    /// Takes one frame's input.
    pub fn update(&mut self, input: DropdownInput) -> (outcome: DropdownOutcome)
        ensures
            *final(self) == old(self).after(input),
            outcome == old(self).outcome(input),
    {
        if input.over_button && input.pressed {
            self.is_open = !self.is_open;
            return DropdownOutcome { raise: self.is_open, chosen: None };
        }
        let mut chosen: Option<usize> = None;
        if self.is_open {
            if input.over_dropdown {
                if input.over_options && input.option_index < self.options {
                    self.hover_index = Some(input.option_index);
                    if input.pressed {
                        self.selected_index = input.option_index;
                        self.is_open = false;
                        chosen = Some(input.option_index);
                    }
                }
            } else if input.pressed {
                self.is_open = false;
            }
        }
        DropdownOutcome { raise: false, chosen }
    }
}

/// Whether a key is one that a text field takes: a character of ASCII that
/// is no control character.
pub open spec fn printable(key: char) -> bool {
    32 <= key as u32 <= 126
}

/// A text field as its text, the place of the cursor in it, and whether it has
/// the focus.
pub struct Field {
    pub text: Seq<char>,
    pub cursor: int,
    pub focused: bool,
}

impl Field {
    /// The field after a click, or none: a click gives the field the focus if
    /// it was on it and takes it away if it was not.
    pub open spec fn clicked(self, click: Option<bool>) -> Field {
        match click {
            Some(over) => Field { focused: over, ..self },
            None => self,
        }
    }

    /// Whether a key changes the text: whether it is printable and the field
    /// has the focus.
    pub open spec fn takes(self, key: char) -> bool {
        self.focused && printable(key)
    }

    /// The field after a key was typed: a key that the field takes goes in at
    /// the cursor, and the cursor moves behind it.
    pub open spec fn typed(self, key: char) -> Field {
        if self.takes(key) {
            Field { text: self.text.insert(self.cursor, key), cursor: self.cursor + 1, ..self }
        } else {
            self
        }
    }

    /// Whether a backspace changes the text: whether the field has the focus
    /// and the cursor is not at the beginning.
    pub open spec fn erases(self) -> bool {
        self.focused && self.cursor > 0
    }

    /// The field after a backspace: the character before the cursor is gone and
    /// the cursor has moved back.
    pub open spec fn erased(self) -> Field {
        if self.erases() {
            Field { text: self.text.remove(self.cursor - 1), cursor: self.cursor - 1, ..self }
        } else {
            self
        }
    }

    /// The field after the left arrow key.
    pub open spec fn left(self) -> Field {
        if self.focused && self.cursor > 0 {
            Field { cursor: self.cursor - 1, ..self }
        } else {
            self
        }
    }

    /// The field after the right arrow key.
    pub open spec fn right(self) -> Field {
        if self.focused && self.cursor < self.text.len() {
            Field { cursor: self.cursor + 1, ..self }
        } else {
            self
        }
    }

    /// Whether the cursor stands within the text or at its end.
    pub open spec fn sound(self) -> bool {
        0 <= self.cursor <= self.text.len()
    }
}

/// The part of a text field that decides: its text, the place of the cursor
/// in it, and whether it has the focus. The cursor is never beyond the end of
/// the text.
pub struct UiInput {
    text: Vec<char>,
    cursor_position: usize,
    focused: bool,
}

impl View for UiInput {
    type V = Field;

    closed spec fn view(&self) -> Field {
        Field { text: self.text@, cursor: self.cursor_position as int, focused: self.focused }
    }
}

impl UiInput {
    /// An empty field without the focus.
    pub fn new() -> (field: UiInput)
        ensures
            field@ == (Field { text: Seq::<char>::empty(), cursor: 0, focused: false }),
    {
        UiInput { text: Vec::new(), cursor_position: 0, focused: false }
    }

    pub fn get_text(&self) -> (text: &Vec<char>)
        ensures
            text@ == self@.text,
    {
        &self.text
    }

    pub fn get_cursor_position(&self) -> (cursor: usize)
        ensures
            cursor == self@.cursor,
    {
        self.cursor_position
    }

    pub fn is_focused(&self) -> (focused: bool)
        ensures
            focused == self@.focused,
    {
        self.focused
    }

    /// Takes a click, or none.
    pub fn click(&mut self, click: Option<bool>)
        requires
            old(self)@.sound(),
        ensures
            final(self)@ == old(self)@.clicked(click),
            final(self)@.sound(),
    {
        match click {
            Some(over) => {
                self.focused = over;
            },
            None => {},
        }
    }

    /// Types a key. The result says whether the text changed.
    pub fn type_key(&mut self, key: char) -> (changed: bool)
        requires
            old(self)@.sound(),
        ensures
            final(self)@ == old(self)@.typed(key),
            final(self)@.sound(),
            changed == old(self)@.takes(key),
    {
        if self.focused && ' ' <= key && key <= '~' {
            self.text.insert(self.cursor_position, key);
            assert(self.text@.len() == self.text.len());
            self.cursor_position = self.cursor_position + 1;
            true
        } else {
            false
        }
    }

    /// Takes a backspace. The result says whether the text changed.
    pub fn backspace(&mut self) -> (changed: bool)
        requires
            old(self)@.sound(),
        ensures
            final(self)@ == old(self)@.erased(),
            final(self)@.sound(),
            changed == old(self)@.erases(),
    {
        if self.focused && self.cursor_position > 0 {
            self.text.remove(self.cursor_position - 1);
            self.cursor_position = self.cursor_position - 1;
            true
        } else {
            false
        }
    }

    /// Takes the left arrow key.
    pub fn move_left(&mut self)
        requires
            old(self)@.sound(),
        ensures
            final(self)@ == old(self)@.left(),
            final(self)@.sound(),
    {
        if self.focused && self.cursor_position > 0 {
            self.cursor_position = self.cursor_position - 1;
        }
    }

    /// Takes the right arrow key.
    pub fn move_right(&mut self)
        requires
            old(self)@.sound(),
        ensures
            final(self)@ == old(self)@.right(),
            final(self)@.sound(),
    {
        if self.focused && self.cursor_position < self.text.len() {
            self.cursor_position = self.cursor_position + 1;
        }
    }
}

/// Whether the element with the handle `z` is in the stack.
pub open spec fn holds<E>(stack: Seq<(usize, E)>, z: usize) -> bool {
    exists|p: int| 0 <= p < stack.len() && (#[trigger] stack[p]).0 == z
}

/// The place in the stack of the element with the handle `z`.
pub open spec fn place<E>(stack: Seq<(usize, E)>, z: usize) -> int {
    choose|p: int| 0 <= p < stack.len() && (#[trigger] stack[p]).0 == z
}

/// The stack after the element with the handle `z` was brought to the front:
/// it has left its place and stands last, which is on top. Without such an
/// element the stack is as it was.
pub open spec fn raised<E>(stack: Seq<(usize, E)>, z: usize) -> Seq<(usize, E)> {
    if holds(stack, z) {
        stack.remove(place(stack, z)).push(stack[place(stack, z)])
    } else {
        stack
    }
}

/// The stack after the elements with the handles `zs` were brought to the
/// front one after the other.
pub open spec fn raised_all<E>(stack: Seq<(usize, E)>, zs: Seq<usize>) -> Seq<(usize, E)>
    decreases zs.len(),
{
    if zs.len() == 0 {
        stack
    } else {
        raised_all(raised(stack, zs[0]), zs.skip(1))
    }
}

/// Whether no two elements of the stack have the same handle, and every
/// handle is below the number of elements.
pub open spec fn handles_sound<E>(stack: Seq<(usize, E)>) -> bool {
    &&& forall|p: int| 0 <= p < stack.len() ==> (#[trigger] stack[p]).0 < stack.len()
    &&& forall|p: int, q: int|
        0 <= p < stack.len() && 0 <= q < stack.len() && p != q ==> (#[trigger] stack[p]).0 != (#[trigger] stack[q]).0
}

/// Whether the element at the place `p` is drawn on top of all that do not
/// float: whether the caller marked it so.
pub open spec fn floats(on_top: Seq<bool>, p: int) -> bool {
    0 <= p < on_top.len() && on_top[p]
}

/// Whether the element at the place `a` is drawn before the one at the place
/// `b`: an element that does not float before one that does, and of two that
/// are alike in this the one with the lower handle first.
pub open spec fn drawn_before<E>(stack: Seq<(usize, E)>, on_top: Seq<bool>, a: int, b: int) -> bool {
    ||| !floats(on_top, a) && floats(on_top, b)
    ||| floats(on_top, a) == floats(on_top, b) && stack[a].0 < stack[b].0
}

/// Whether the place `p` is listed in `order`.
pub open spec fn listed(order: Seq<usize>, p: int) -> bool {
    exists|k: int| 0 <= k < order.len() && #[trigger] order[k] == p
}

/// Bringing an element to the front keeps the handles as they are.
pub proof fn lemma_raised_is_sound<E>(stack: Seq<(usize, E)>, z: usize)
    requires
        handles_sound(stack),
    ensures
        handles_sound(raised(stack, z)),
        raised(stack, z).len() == stack.len(),
{
    if holds(stack, z) {
        let at = place(stack, z);
        let after = raised(stack, z);
        assert forall|p: int| 0 <= p < after.len() implies (#[trigger] after[p]).0 < after.len() by {
            if p < at {
                assert(after[p] == stack[p]);
            } else if p < after.len() - 1 {
                assert(after[p] == stack[p + 1]);
            } else {
                assert(after[p] == stack[at]);
            }
        }
        assert forall|p: int, q: int| 0 <= p < after.len() && 0 <= q < after.len() && p != q implies (
        #[trigger] after[p]).0 != (#[trigger] after[q]).0 by {
            let from = |r: int| if r < at { r } else if r < after.len() - 1 { r + 1 } else { at };
            assert(after[p] == stack[from(p)]);
            assert(after[q] == stack[from(q)]);
            assert(from(p) != from(q));
        }
    }
}

/// The elements of a user interface, stacked: what stands later in the stack
/// lies on top and takes its turn later. Each element has a handle, which it
/// keeps for good: the number of elements that came in before it.
pub struct UiManager<E> {
    elements: Vec<(usize, E)>,
}

impl<E> UiManager<E> {
    /// The elements with their handles, from the bottom of the stack to the
    /// top.
    pub closed spec fn stack(self) -> Seq<(usize, E)> {
        self.elements@
    }

    /// What holds of every manager: no two elements have the same handle, and
    /// every handle is below the number of elements.
    pub open spec fn sound(self) -> bool {
        handles_sound(self.stack())
    }

    /// A manager without elements.
    pub fn new() -> (manager: UiManager<E>)
        ensures
            manager.sound(),
            manager.stack() == Seq::<(usize, E)>::empty(),
    {
        UiManager { elements: Vec::new() }
    }

    /// The elements with their handles, from the bottom of the stack to the
    /// top.
    pub fn elements(&self) -> (elements: &Vec<(usize, E)>)
        ensures
            elements@ == self.stack(),
    {
        &self.elements
    }

    /// Puts an element on top of the stack and gives out its handle.
    pub fn add_element(&mut self, element: E) -> (z: usize)
        requires
            old(self).sound(),
        ensures
            final(self).sound(),
            z == old(self).stack().len(),
            final(self).stack() == old(self).stack().push((z, element)),
    {
        let z: usize = self.elements.len();
        self.elements.push((z, element));
        z
    }

    /// The place in the stack of the element with the handle `z`, if there is
    /// such an element.
    pub fn get_element_index(&self, z: usize) -> (index: Option<usize>)
        requires
            self.sound(),
        ensures
            index.is_some() == holds(self.stack(), z),
            index matches Some(p) ==> p == place(self.stack(), z) && p < self.stack().len() && self.stack()[p as int].0
                == z,
    {
        let mut p: usize = 0;
        while p < self.elements.len()
            invariant
                self.sound(),
                p <= self.elements@.len(),
                forall|q: int| 0 <= q < p ==> (#[trigger] self.elements@[q]).0 != z,
            decreases self.elements@.len() - p,
        {
            if self.elements[p].0 == z {
                proof {
                    assert(holds(self.stack(), z));
                    let at = place(self.stack(), z);
                    assert(self.stack()[at].0 == self.stack()[p as int].0);
                }
                return Some(p);
            }
            p += 1;
        }
        None
    }

    /// The element with the handle `z`, if there is one.
    pub fn get_element(&self, z: usize) -> (element: Option<&E>)
        requires
            self.sound(),
        ensures
            element.is_some() == holds(self.stack(), z),
            element matches Some(e) ==> *e == self.stack()[place(self.stack(), z)].1,
    {
        match self.get_element_index(z) {
            Some(p) => Some(&self.elements[p].1),
            None => None,
        }
    }

    /// The element with the handle `z`, to be changed, if there is one. It
    /// keeps its handle and its place.
    pub fn get_element_mut(&mut self, z: usize) -> (element: Option<&mut E>)
        requires
            old(self).sound(),
        ensures
            final(self).sound(),
            element.is_some() == holds(old(self).stack(), z),
            match element {
                Some(e) => {
                    &&& *e == old(self).stack()[place(old(self).stack(), z)].1
                    &&& final(self).stack() == old(self).stack().update(place(old(self).stack(), z), (z, *final(e)))
                },
                None => final(self).stack() == old(self).stack(),
            },
    {
        match self.get_element_index(z) {
            Some(p) => {
                let slot = &mut self.elements[p];
                Some(&mut slot.1)
            },
            None => None,
        }
    }

    /// Brings the element with the handle `z` to the front.
    pub fn bring_to_front(&mut self, z: usize)
        requires
            old(self).sound(),
        ensures
            final(self).sound(),
            final(self).stack() == raised(old(self).stack(), z),
    {
        proof {
            lemma_raised_is_sound(self.stack(), z);
        }
        match self.get_element_index(z) {
            Some(p) => {
                let item = self.elements.remove(p);
                self.elements.push(item);
            },
            None => {},
        }
    }

    /// Brings the elements with the given handles to the front, one after the
    /// other, so that the last of them ends on top.
    pub fn bring_all_to_front(&mut self, handles: &Vec<usize>)
        requires
            old(self).sound(),
        ensures
            final(self).sound(),
            final(self).stack() == raised_all(old(self).stack(), handles@),
    {
        let mut i: usize = 0;
        assert(handles@.skip(0) =~= handles@);
        while i < handles.len()
            invariant
                i <= handles@.len(),
                self.sound(),
                raised_all(self.stack(), handles@.skip(i as int)) == raised_all(old(self).stack(), handles@),
            decreases handles@.len() - i,
        {
            proof {
                assert(handles@.skip(i as int)[0] == handles@[i as int]);
                assert(handles@.skip(i as int).skip(1) =~= handles@.skip(i as int + 1));
            }
            self.bring_to_front(handles[i]);
            i += 1;
        }
    }

    /// The order in which the elements are drawn, as their places in the
    /// stack: by their handles, lowest first, but every element that
    /// `on_top` marks at its place is drawn after all that it does not mark.
    /// Every place is listed, and the order is strict, so no place is listed
    /// twice.
    pub fn draw_order(&self, on_top: &Vec<bool>) -> (order: Vec<usize>)
        requires
            self.sound(),
        ensures
            forall|k: int| 0 <= k < order@.len() ==> #[trigger] order@[k] < self.stack().len(),
            forall|p: int| 0 <= p < self.stack().len() ==> listed(order@, p),
            forall|a: int, b: int|
                0 <= a < b < order@.len() ==> drawn_before(
                    self.stack(),
                    on_top@,
                    #[trigger] order@[a] as int,
                    #[trigger] order@[b] as int,
                ),
    {
        let n: usize = self.elements.len();
        let mut order: Vec<usize> = Vec::new();
        let mut z: usize = 0;
        while z < n
            invariant
                self.sound(),
                n == self.stack().len(),
                z <= n,
                forall|k: int|
                    0 <= k < order@.len() ==> (#[trigger] order@[k]) < n && !floats(on_top@, order@[k] as int)
                        && self.stack()[order@[k] as int].0 < z,
                forall|p: int| 0 <= p < n && !floats(on_top@, p) && self.stack()[p].0 < z ==> listed(order@, p),
                forall|a: int, b: int|
                    0 <= a < b < order@.len() ==> self.stack()[(#[trigger] order@[a]) as int].0 < self.stack()[(
                    #[trigger] order@[b]) as int].0,
            decreases n - z,
        {
            let ghost before = order@;
            match self.get_element_index(z) {
                Some(p) => {
                    let marked: bool = p < on_top.len() && on_top[p];
                    if !marked {
                        order.push(p);
                    }
                },
                None => {},
            }
            proof {
                assert forall|q: int| 0 <= q < n && !floats(on_top@, q) && self.stack()[q].0 < z + 1 implies listed(
                    order@,
                    q,
                ) by {
                    if self.stack()[q].0 < z {
                        let k = choose|k: int| 0 <= k < before.len() && #[trigger] before[k] == q;
                        assert(order@[k] == q);
                    } else {
                        assert(holds(self.stack(), z));
                        assert(order@[order@.len() - 1] == q);
                    }
                }
            }
            z += 1;
        }
        let ghost low = order@;
        let mut z: usize = 0;
        while z < n
            invariant
                self.sound(),
                n == self.stack().len(),
                z <= n,
                low.len() <= order@.len(),
                forall|k: int| 0 <= k < low.len() ==> #[trigger] order@[k] == low[k],
                forall|k: int| 0 <= k < low.len() ==> (#[trigger] low[k]) < n && !floats(on_top@, low[k] as int),
                forall|p: int| 0 <= p < n && !floats(on_top@, p) ==> listed(low, p),
                forall|a: int, b: int|
                    0 <= a < b < low.len() ==> self.stack()[(#[trigger] low[a]) as int].0 < self.stack()[(
                    #[trigger] low[b]) as int].0,
                forall|k: int|
                    low.len() <= k < order@.len() ==> (#[trigger] order@[k]) < n && floats(on_top@, order@[k] as int)
                        && self.stack()[order@[k] as int].0 < z,
                forall|p: int| 0 <= p < n && floats(on_top@, p) && self.stack()[p].0 < z ==> listed(order@, p),
                forall|a: int, b: int|
                    low.len() <= a < b < order@.len() ==> self.stack()[(#[trigger] order@[a]) as int].0
                        < self.stack()[(#[trigger] order@[b]) as int].0,
            decreases n - z,
        {
            let ghost before = order@;
            match self.get_element_index(z) {
                Some(p) => {
                    let marked: bool = p < on_top.len() && on_top[p];
                    if marked {
                        order.push(p);
                    }
                },
                None => {},
            }
            proof {
                assert forall|q: int| 0 <= q < n && floats(on_top@, q) && self.stack()[q].0 < z + 1 implies listed(
                    order@,
                    q,
                ) by {
                    if self.stack()[q].0 < z {
                        let k = choose|k: int| 0 <= k < before.len() && #[trigger] before[k] == q;
                        assert(order@[k] == q);
                    } else {
                        assert(holds(self.stack(), z));
                        assert(order@[order@.len() - 1] == q);
                    }
                }
            }
            z += 1;
        }
        proof {
            assert forall|p: int| 0 <= p < self.stack().len() implies listed(order@, p) by {
                if !floats(on_top@, p) {
                    let k = choose|k: int| 0 <= k < low.len() && #[trigger] low[k] == p;
                    assert(order@[k] == p);
                }
            }
            assert forall|a: int, b: int| 0 <= a < b < order@.len() implies drawn_before(
                self.stack(),
                on_top@,
                #[trigger] order@[a] as int,
                #[trigger] order@[b] as int,
            ) by {
                if a < low.len() {
                    assert(order@[a] == low[a]);
                }
                if b < low.len() {
                    assert(order@[b] == low[b]);
                }
            }
        }
        order
    }
}

} // verus!
