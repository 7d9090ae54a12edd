//! Maps the board's edge-connector pin numbers to the
//! microcontroller's own pin numbering.

use vstd::prelude::*;

verus! {

/// Number of entries in the board-pin table (board pins `0..=20`).
pub const BOARD_PIN_COUNT: u32 = 21;

/// Number of pins the microcontroller exposes (pins `0..48`).
pub const PHYSICAL_PIN_COUNT: u32 = 48;

/// The board pin has no counterpart on the microcontroller: it is past the
/// end of the table, or one of the reserved slots.
#[derive(Debug, Clone, Copy, PartialEq, Eq, Structural)]
pub struct InvalidMicrobitPinError;

/// The board-pin table: the controller pin wired to each board pin, or `None`
/// for a reserved slot and for any index past the table.
pub open spec fn board_table(pin: int) -> Option<u32> {
    if pin == 0 { Some(2u32) }
    else if pin == 1 { Some(3u32) }
    else if pin == 2 { Some(4u32) }
    else if pin == 3 { Some(31u32) }
    else if pin == 4 { Some(28u32) }
    else if pin == 5 { Some(14u32) }
    else if pin == 6 { Some(37u32) }
    else if pin == 7 { Some(11u32) }
    else if pin == 8 { Some(10u32) }
    else if pin == 9 { Some(9u32) }
    else if pin == 10 { Some(30u32) }
    else if pin == 11 { Some(23u32) }
    else if pin == 12 { Some(12u32) }
    else if pin == 13 { Some(17u32) }
    else if pin == 14 { Some(1u32) }
    else if pin == 15 { Some(13u32) }
    else if pin == 16 { Some(34u32) }
    else if pin == 19 { Some(26u32) }
    else if pin == 20 { Some(32u32) }
    else { None }
}

/// What translating `pin` yields: its controller pin, or the error when the
/// table has none for it.
pub open spec fn translation(pin: int) -> Result<u32, InvalidMicrobitPinError> {
    match board_table(pin) {
        Some(p) => Ok(p),
        None => Err(InvalidMicrobitPinError),
    }
}

/// The raw table as the hardware documentation lists it: a signed controller
/// address per board pin, with `-1` marking a reserved slot.
fn hal_address(pin: u32) -> (r: Option<i32>)
    ensures
        pin < BOARD_PIN_COUNT <==> r is Some,
        r matches Some(a) ==> (a < 0 <==> board_table(pin as int) is None),
        r matches Some(a) ==> (a >= 0 ==> board_table(pin as int) == Some(a as u32)),
{
    match pin {
        0 => Some(2),
        1 => Some(3),
        2 => Some(4),
        3 => Some(31),
        4 => Some(28),
        5 => Some(14),
        6 => Some(37),
        7 => Some(11),
        8 => Some(10),
        9 => Some(9),
        10 => Some(30),
        11 => Some(23),
        12 => Some(12),
        13 => Some(17),
        14 => Some(1),
        15 => Some(13),
        16 => Some(34),
        17 => Some(-1),
        18 => Some(-1),
        19 => Some(26),
        20 => Some(32),
        _ => None,
    }
}

/// Translates a board pin to the controller pin that the peripheral drivers
/// take. Fails for the reserved board pins 17 and 18 and for any index past
/// the table; a reserved slot's negative marker is never reinterpreted as an
/// unsigned pin.
pub fn to_hal(microbit_pin: u32) -> (r: Result<u32, InvalidMicrobitPinError>)
    ensures
        r == translation(microbit_pin as int),
{
    match hal_address(microbit_pin) {
        None => Err(InvalidMicrobitPinError),
        Some(address) => {
            if address < 0 {
                Err(InvalidMicrobitPinError)
            } else {
                Ok(address as u32)
            }
        },
    }
}

/// Every board pin in the table other than the reserved 17 and 18 translates
/// successfully, to its table entry, and that entry is a pin the controller
/// has.
pub proof fn lemma_mapped_pins_translate(pin: u32)
    requires
        pin < BOARD_PIN_COUNT,
        pin != 17,
        pin != 18,
    ensures
        board_table(pin as int) is Some,
        translation(pin as int) == Ok::<u32, InvalidMicrobitPinError>(board_table(pin as int)->Some_0),
        board_table(pin as int)->Some_0 < PHYSICAL_PIN_COUNT,
{
}

/// The reserved board pins 17 and 18 always fail to translate.
pub proof fn lemma_reserved_pins_rejected()
    ensures
        translation(17) == Err::<u32, InvalidMicrobitPinError>(InvalidMicrobitPinError),
        translation(18) == Err::<u32, InvalidMicrobitPinError>(InvalidMicrobitPinError),
{
}

/// Every board pin past the end of the table fails to translate.
pub proof fn lemma_out_of_range_rejected(pin: u32)
    requires
        pin >= BOARD_PIN_COUNT,
    ensures
        translation(pin as int) == Err::<u32, InvalidMicrobitPinError>(InvalidMicrobitPinError),
{
}

/// Translation is a function of the board pin alone: two results that
/// `to_hal` may return for the same pin are the same result.
pub proof fn lemma_translation_deterministic(
    pin: u32,
    first: Result<u32, InvalidMicrobitPinError>,
    second: Result<u32, InvalidMicrobitPinError>,
)
    requires
        first == translation(pin as int),
        second == translation(pin as int),
    ensures
        first == second,
{
}

/// Distinct board pins that both translate reach distinct controller pins,
/// so claiming each board pin once never configures one line twice.
pub proof fn lemma_translation_injective(a: u32, b: u32)
    requires
        a != b,
        translation(a as int) is Ok,
        translation(b as int) is Ok,
    ensures
        translation(a as int) != translation(b as int),
{
}

} // verus!
