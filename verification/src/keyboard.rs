//! The keyboard: eight half-rows of five keys each, read through port 0xFE.

use vstd::prelude::*;

verus! {

/// A key of the host keyboard that stands for a key of the Spectrum, or
/// `Other` for any key that stands for none.
#[derive(Copy, Clone, Debug, PartialEq, Eq, Structural)]
pub enum HostKey {
    LShift,
    Z,
    X,
    C,
    V,
    A,
    S,
    D,
    F,
    G,
    Q,
    W,
    E,
    R,
    T,
    Num1,
    Num2,
    Num3,
    Num4,
    Num5,
    Num0,
    Num9,
    Num8,
    Num7,
    Num6,
    P,
    O,
    I,
    U,
    Y,
    Return,
    L,
    K,
    J,
    H,
    Space,
    LCtrl,
    M,
    N,
    B,
    Other,
}

/// The matrix. A row's bit is 0 while its key is held down; bit `b` of row
/// `r` is the key at column `b` of half-row `r`.
pub struct Keyboard {
    pub rows: [u8; 8],
}

/// Row and bit of a key in the matrix. Half-row 0 is CapsShift to V, 1 is A
/// to G, 2 is Q to T, 3 is 1 to 5, 4 is 0 to 6, 5 is P to Y, 6 is Enter to H,
/// 7 is Space to B; in each the outermost key is bit 0.
pub open spec fn matrix_coords(key: HostKey) -> Option<(int, int)> {
    match key {
        HostKey::LShift => Some((0, 0)),
        HostKey::Z => Some((0, 1)),
        HostKey::X => Some((0, 2)),
        HostKey::C => Some((0, 3)),
        HostKey::V => Some((0, 4)),
        HostKey::A => Some((1, 0)),
        HostKey::S => Some((1, 1)),
        HostKey::D => Some((1, 2)),
        HostKey::F => Some((1, 3)),
        HostKey::G => Some((1, 4)),
        HostKey::Q => Some((2, 0)),
        HostKey::W => Some((2, 1)),
        HostKey::E => Some((2, 2)),
        HostKey::R => Some((2, 3)),
        HostKey::T => Some((2, 4)),
        HostKey::Num1 => Some((3, 0)),
        HostKey::Num2 => Some((3, 1)),
        HostKey::Num3 => Some((3, 2)),
        HostKey::Num4 => Some((3, 3)),
        HostKey::Num5 => Some((3, 4)),
        HostKey::Num0 => Some((4, 0)),
        HostKey::Num9 => Some((4, 1)),
        HostKey::Num8 => Some((4, 2)),
        HostKey::Num7 => Some((4, 3)),
        HostKey::Num6 => Some((4, 4)),
        HostKey::P => Some((5, 0)),
        HostKey::O => Some((5, 1)),
        HostKey::I => Some((5, 2)),
        HostKey::U => Some((5, 3)),
        HostKey::Y => Some((5, 4)),
        HostKey::Return => Some((6, 0)),
        HostKey::L => Some((6, 1)),
        HostKey::K => Some((6, 2)),
        HostKey::J => Some((6, 3)),
        HostKey::H => Some((6, 4)),
        HostKey::Space => Some((7, 0)),
        HostKey::LCtrl => Some((7, 1)),
        HostKey::M => Some((7, 2)),
        HostKey::N => Some((7, 3)),
        HostKey::B => Some((7, 4)),
        HostKey::Other => None,
    }
}

/// A row with the key at `bit` held down.
pub open spec fn row_pressed(row: u8, bit: u8) -> u8 {
    row & !(1u8 << bit)
}

/// A row with the key at `bit` let go.
pub open spec fn row_released(row: u8, bit: u8) -> u8 {
    row | (1u8 << bit)
}

/// The matrix after `key` went down (`pressed`) or up. A key that stands for
/// no Spectrum key changes nothing.
pub open spec fn with_key(rows: Seq<u8>, key: HostKey, pressed: bool) -> Seq<u8> {
    match matrix_coords(key) {
        Some((row, bit)) => rows.update(
            row,
            if pressed {
                row_pressed(rows[row], bit as u8)
            } else {
                row_released(rows[row], bit as u8)
            },
        ),
        None => rows,
    }
}

/// Whether the port's high byte selects half-row `row`: its bit is 0.
pub open spec fn selects(high_byte: u8, row: u8) -> bool {
    (high_byte >> row) & 1 == 0
}

/// What the first `n` half-rows put on the wire: the AND of those that
/// `high_byte` selects, starting from five released keys.
pub open spec fn scan(rows: Seq<u8>, high_byte: u8, n: int) -> u8
    decreases n,
{
    if n <= 0 {
        0x1F
    } else if selects(high_byte, (n - 1) as u8) {
        scan(rows, high_byte, n - 1) & rows[n - 1]
    } else {
        scan(rows, high_byte, n - 1)
    }
}

impl Keyboard {
    /// A keyboard with no key held down.
    pub fn new() -> (k: Self)
        ensures
            k.rows@ == Seq::new(8, |r: int| 0x1Fu8),
    {
        let k = Keyboard { rows: [0x1F, 0x1F, 0x1F, 0x1F, 0x1F, 0x1F, 0x1F, 0x1F] };
        assert(k.rows@ =~= Seq::new(8, |r: int| 0x1Fu8));
        k
    }

    pub fn key_down(&mut self, key: HostKey)
        ensures
            final(self).rows@ == with_key(old(self).rows@, key, true),
    {
        self.update_key_state(key, true);
    }

    pub fn key_up(&mut self, key: HostKey)
        ensures
            final(self).rows@ == with_key(old(self).rows@, key, false),
    {
        self.update_key_state(key, false);
    }

    fn update_key_state(&mut self, key: HostKey, pressed: bool)
        ensures
            final(self).rows@ == with_key(old(self).rows@, key, pressed),
    {
        if let Some((row, bit)) = get_matrix_coords(key) {
            let current = self.rows[row];
            let next = if pressed {
                current & !(1u8 << bit)
            } else {
                current | (1u8 << bit)
            };
            self.rows[row] = next;
            assert(self.rows@ =~= with_key(old(self).rows@, key, pressed));
        }
    }

    /// The low five bits that a read of port 0xFE gives for the half-rows
    /// that `high_byte` selects.
    pub fn read_port_fe(&self, high_byte: u8) -> (wire: u8)
        ensures
            wire == scan(self.rows@, high_byte, 8),
    {
        let mut result: u8 = 0x1F;
        let mut row: u8 = 0;
        while row < 8
            invariant
                row <= 8,
                result == scan(self.rows@, high_byte, row as int),
            decreases 8 - row,
        {
            if (high_byte >> row) & 1 == 0 {
                result = result & self.rows[row as usize];
            }
            row = row + 1;
        }
        result
    }
}

/// Row and bit of a key in the matrix, for the keys that have one.
pub fn get_matrix_coords(key: HostKey) -> (coords: Option<(usize, u8)>)
    ensures
        match coords {
            Some((row, bit)) => matrix_coords(key) == Some((row as int, bit as int)) && row < 8
                && bit < 5,
            None => matrix_coords(key) is None,
        },
{
    match key {
        HostKey::LShift => Some((0, 0)),
        HostKey::Z => Some((0, 1)),
        HostKey::X => Some((0, 2)),
        HostKey::C => Some((0, 3)),
        HostKey::V => Some((0, 4)),
        HostKey::A => Some((1, 0)),
        HostKey::S => Some((1, 1)),
        HostKey::D => Some((1, 2)),
        HostKey::F => Some((1, 3)),
        HostKey::G => Some((1, 4)),
        HostKey::Q => Some((2, 0)),
        HostKey::W => Some((2, 1)),
        HostKey::E => Some((2, 2)),
        HostKey::R => Some((2, 3)),
        HostKey::T => Some((2, 4)),
        HostKey::Num1 => Some((3, 0)),
        HostKey::Num2 => Some((3, 1)),
        HostKey::Num3 => Some((3, 2)),
        HostKey::Num4 => Some((3, 3)),
        HostKey::Num5 => Some((3, 4)),
        HostKey::Num0 => Some((4, 0)),
        HostKey::Num9 => Some((4, 1)),
        HostKey::Num8 => Some((4, 2)),
        HostKey::Num7 => Some((4, 3)),
        HostKey::Num6 => Some((4, 4)),
        HostKey::P => Some((5, 0)),
        HostKey::O => Some((5, 1)),
        HostKey::I => Some((5, 2)),
        HostKey::U => Some((5, 3)),
        HostKey::Y => Some((5, 4)),
        HostKey::Return => Some((6, 0)),
        HostKey::L => Some((6, 1)),
        HostKey::K => Some((6, 2)),
        HostKey::J => Some((6, 3)),
        HostKey::H => Some((6, 4)),
        HostKey::Space => Some((7, 0)),
        HostKey::LCtrl => Some((7, 1)),
        HostKey::M => Some((7, 2)),
        HostKey::N => Some((7, 3)),
        HostKey::B => Some((7, 4)),
        HostKey::Other => None,
    }
}

/// Keyboard idempotence: a second key-down of the same key, or a second
/// key-up, leaves the matrix as the first one made it.
pub proof fn lemma_key_event_idempotent(rows: Seq<u8>, key: HostKey, pressed: bool)
    requires
        rows.len() == 8,
    ensures
        with_key(with_key(rows, key, pressed), key, pressed) == with_key(rows, key, pressed),
{
    match matrix_coords(key) {
        Some((row, bit)) => {
            let x = rows[row];
            let b = bit as u8;
            assert(row_pressed(row_pressed(x, b), b) == row_pressed(x, b)) by (bit_vector);
            assert(row_released(row_released(x, b), b) == row_released(x, b)) by (bit_vector);
            assert(with_key(with_key(rows, key, pressed), key, pressed) =~= with_key(
                rows,
                key,
                pressed,
            ));
        },
        None => {},
    }
}

} // verus!
