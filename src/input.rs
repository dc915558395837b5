use vstd::prelude::*;

verus! {

/// Width in bytes of one player's encoded input for one frame.
pub const INPUT_SIZE: usize = 8;

/// One player's input for one frame. The axes are -1, 0 or +1 when produced
/// from a keyboard, but any `i8` survives the encoding.
#[derive(Copy, Clone, Debug, Default, PartialEq, Eq, Hash)]
pub struct InputEvents {
    pub left_right_axis: i8,
    pub up_down_axis: i8,
    pub jump_was_pressed: bool,
    pub heavy_attack_was_pressed: bool,
    pub light_attack_was_pressed: bool,
    pub medium_attack_was_pressed: bool,
    pub special_ability: bool,
    pub dash: bool,
}

pub open spec fn flag_byte(b: bool) -> u8 {
    if b { 1u8 } else { 0u8 }
}

/// The wire layout: axis, axis, jump, heavy, medium, light, special, dash.
pub open spec fn encoded(e: InputEvents) -> Seq<u8> {
    seq![
        e.left_right_axis as u8,
        e.up_down_axis as u8,
        flag_byte(e.jump_was_pressed),
        flag_byte(e.heavy_attack_was_pressed),
        flag_byte(e.medium_attack_was_pressed),
        flag_byte(e.light_attack_was_pressed),
        flag_byte(e.special_ability),
        flag_byte(e.dash),
    ]
}

/// What a frame's bytes mean; any nonzero flag byte reads as pressed.
pub open spec fn decoded(b: Seq<u8>) -> InputEvents {
    InputEvents {
        left_right_axis: b[0] as i8,
        up_down_axis: b[1] as i8,
        jump_was_pressed: b[2] != 0,
        heavy_attack_was_pressed: b[3] != 0,
        medium_attack_was_pressed: b[4] != 0,
        light_attack_was_pressed: b[5] != 0,
        special_ability: b[6] != 0,
        dash: b[7] != 0,
    }
}

fn flag_to_byte(b: bool) -> (r: u8)
    ensures
        r == flag_byte(b),
{
    if b { 1 } else { 0 }
}

impl InputEvents {
    pub fn convert_input_events_into_vector(&self) -> (r: Vec<u8>)
        ensures
            r@ == encoded(*self),
            r@.len() == INPUT_SIZE,
    {
        let r = vec![
            self.left_right_axis as u8,
            self.up_down_axis as u8,
            flag_to_byte(self.jump_was_pressed),
            flag_to_byte(self.heavy_attack_was_pressed),
            flag_to_byte(self.medium_attack_was_pressed),
            flag_to_byte(self.light_attack_was_pressed),
            flag_to_byte(self.special_ability),
            flag_to_byte(self.dash),
        ];
        assert(r@ =~= encoded(*self));
        r
    }

    /// Reads the input of player `player_index` out of the frame's input
    /// vectors. A vector of the wrong width is a protocol violation, which
    /// callers rule out before the call.
    pub fn from_input_vector(input: &Vec<Vec<u8>>, player_index: usize) -> (r: InputEvents)
        requires
            player_index < input@.len(),
            input@[player_index as int]@.len() == INPUT_SIZE,
        ensures
            r == decoded(input@[player_index as int]@),
    {
        let b = &input[player_index];
        InputEvents {
            left_right_axis: b[0] as i8,
            up_down_axis: b[1] as i8,
            jump_was_pressed: b[2] != 0,
            heavy_attack_was_pressed: b[3] != 0,
            medium_attack_was_pressed: b[4] != 0,
            light_attack_was_pressed: b[5] != 0,
            special_ability: b[6] != 0,
            dash: b[7] != 0,
        }
    }
}

/// Encoding is lossless: decoding the bytes of an input gives it back.
pub proof fn lemma_decode_encode(e: InputEvents)
    ensures
        encoded(e).len() == INPUT_SIZE,
        decoded(encoded(e)) == e,
{
    let a = e.left_right_axis;
    let b = e.up_down_axis;
    assert(((a as u8) as i8) == a) by (bit_vector);
    assert(((b as u8) as i8) == b) by (bit_vector);
}

/// Every byte of an encoded input is an axis or 0/1: no stray bits.
pub proof fn lemma_flag_bytes_are_bits(e: InputEvents, i: int)
    requires
        2 <= i < INPUT_SIZE,
    ensures
        encoded(e)[i] == 0 || encoded(e)[i] == 1,
{
}

/// Which of the game's keys are held this frame.
#[derive(Copy, Clone, Debug, Default, PartialEq, Eq, Hash)]
pub struct PressedKeys {
    pub left: bool,
    pub right: bool,
    pub up: bool,
    pub down: bool,
    pub light_attack: bool,
    pub medium_attack: bool,
    pub heavy_attack: bool,
    pub special: bool,
    pub dash: bool,
}

/// Left and right together cancel out; up wins over down, and up also
/// jumps.
pub open spec fn events_from_keys(k: PressedKeys) -> InputEvents {
    InputEvents {
        left_right_axis: if k.left && k.right {
            0i8
        } else if k.left {
            -1i8
        } else if k.right {
            1i8
        } else {
            0i8
        },
        up_down_axis: if k.up {
            -1i8
        } else if k.down {
            1i8
        } else {
            0i8
        },
        jump_was_pressed: k.up,
        heavy_attack_was_pressed: k.heavy_attack,
        light_attack_was_pressed: k.light_attack,
        medium_attack_was_pressed: k.medium_attack,
        special_ability: k.special,
        dash: k.dash,
    }
}

impl InputEvents {
    pub fn from_keys(k: &PressedKeys) -> (r: InputEvents)
        ensures
            r == events_from_keys(*k),
    {
        let left_right_axis: i8 = if k.left && k.right {
            0
        } else if k.left {
            -1
        } else if k.right {
            1
        } else {
            0
        };
        let up_down_axis: i8 = if k.up {
            -1
        } else if k.down {
            1
        } else {
            0
        };
        InputEvents {
            left_right_axis,
            up_down_axis,
            jump_was_pressed: k.up,
            heavy_attack_was_pressed: k.heavy_attack,
            light_attack_was_pressed: k.light_attack,
            medium_attack_was_pressed: k.medium_attack,
            special_ability: k.special,
            dash: k.dash,
        }
    }
}

/// The local player's encoded input for this frame.
pub fn keyboard_input_system(keys: &PressedKeys) -> (r: Vec<u8>)
    ensures
        r@ == encoded(events_from_keys(*keys)),
        r@.len() == INPUT_SIZE,
{
    InputEvents::from_keys(keys).convert_input_events_into_vector()
}

} // verus!
