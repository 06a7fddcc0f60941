use vstd::prelude::*;

verus! {

/// Number of keys on the hexadecimal keypad.
pub const KEY_COUNT: usize = 16;

/// Whether `i` is the lowest pressed key of `keys`.
pub open spec fn is_lowest_pressed(keys: Seq<bool>, i: int) -> bool {
    0 <= i < keys.len() && keys[i] && forall|j: int| 0 <= j < i ==> !keys[j]
}

/// Whether some key of `keys` is pressed.
pub open spec fn some_pressed(keys: Seq<bool>) -> bool {
    exists|i: int| 0 <= i < keys.len() && keys[i]
}

/// The pressed/released state of the sixteen keys.
pub struct Keypad {
    keys: Vec<bool>,
}

impl View for Keypad {
    type V = Seq<bool>;

    closed spec fn view(&self) -> Seq<bool> {
        self.keys@
    }
}

impl Keypad {
    pub open spec fn wf(&self) -> bool {
        self@.len() == KEY_COUNT
    }

    /// A keypad with every key released.
    pub fn new() -> (r: Keypad)
        ensures
            r.wf(),
            r@ == Seq::new(KEY_COUNT as nat, |i: int| false),
    {
        let r = Keypad { keys: vec![false; KEY_COUNT] };
        assert(r@ =~= Seq::new(KEY_COUNT as nat, |i: int| false));
        r
    }

    /// Records whether key `index` is pressed.
    pub fn set_key(&mut self, index: usize, pressed: bool)
        requires
            old(self).wf(),
            index < KEY_COUNT,
        ensures
            final(self)@ == old(self)@.update(index as int, pressed),
            final(self).wf(),
    {
        self.keys[index] = pressed;
    }

    pub fn is_pressed(&self, index: usize) -> (r: bool)
        requires
            self.wf(),
            index < KEY_COUNT,
        ensures
            r == self@[index as int],
    {
        self.keys[index]
    }

    /// The lowest-indexed pressed key, if any key is pressed.
    pub fn any_pressed(&self) -> (r: Option<usize>)
        requires
            self.wf(),
        ensures
            r matches Some(i) ==> is_lowest_pressed(self@, i as int),
            r is None <==> !some_pressed(self@),
    {
        let mut i: usize = 0;
        while i < KEY_COUNT
            invariant
                self.wf(),
                i <= KEY_COUNT,
                forall|j: int| 0 <= j < i ==> !self@[j],
            decreases KEY_COUNT - i,
        {
            if self.keys[i] {
                return Some(i);
            }
            i = i + 1;
        }
        None
    }
}

} // verus!
