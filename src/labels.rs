//! Human-readable labels of key codes.
use vstd::prelude::*;

verus! {

/// The label shown for a code outside the table.
pub open spec fn unknown_label() -> Seq<char> {
    "<UNK>"@
}

/// Whether `code` has an entry of its own in the label table: the main
/// block of a keyboard (1 through 70) and the four arrow keys.
pub open spec fn is_known_code(code: u16) -> bool {
    (1 <= code <= 70) || code == 103 || code == 105 || code == 106 || code == 108
}

/// The label of a key code.
pub open spec fn label_of(code: u16) -> Seq<char> {
    match code {
        1 => "ESC"@,
        2 => "1"@,
        3 => "2"@,
        4 => "3"@,
        5 => "4"@,
        6 => "5"@,
        7 => "6"@,
        8 => "7"@,
        9 => "8"@,
        10 => "9"@,
        11 => " 0"@,
        12 => "-"@,
        13 => "="@,
        14 => "BACKSPACE"@,
        15 => "<Tab>"@,
        16 => "Q"@,
        17 => "W"@,
        18 => "E"@,
        19 => "R"@,
        20 => "T"@,
        21 => "Y"@,
        22 => "U"@,
        23 => "I"@,
        24 => "O"@,
        25 => "P"@,
        26 => "["@,
        27 => "]"@,
        28 => "ENTER"@,
        29 => "L-CTL"@,
        30 => "A"@,
        31 => "S"@,
        32 => "D"@,
        33 => "F"@,
        34 => "G"@,
        35 => "H"@,
        36 => "J"@,
        37 => "K"@,
        38 => "L"@,
        39 => ";"@,
        40 => "'"@,
        41 => "`"@,
        42 => "L-Shift"@,
        43 => "\\"@,
        44 => "Z"@,
        45 => "X"@,
        46 => "C"@,
        47 => "V"@,
        48 => "B"@,
        49 => "N"@,
        50 => "M"@,
        51 => ","@,
        52 => "."@,
        53 => "/"@,
        54 => "R-Shift"@,
        55 => "KPASTERISK"@,
        56 => "L-Alt"@,
        57 => "SPACE"@,
        58 => "CAPSLOCK"@,
        59 => "F1"@,
        60 => "F2"@,
        61 => "F3"@,
        62 => "F4"@,
        63 => "F5"@,
        64 => "F6"@,
        65 => "F7"@,
        66 => "F8"@,
        67 => "F9"@,
        68 => "F10"@,
        69 => "NUMLOCK"@,
        70 => "SCROLLLOCK"@,
        103 => "UP"@,
        105 => "LEFT"@,
        106 => "RIGHT"@,
        108 => "DOWN"@,
        _ => unknown_label(),
    }
}

/// The label of a key code, with `"<UNK>"` for codes outside the table.
pub fn code_to_char(code: u16) -> (r: &'static str)
    ensures
        r@ == label_of(code),
        !is_known_code(code) ==> r@ == unknown_label(),
{
    match code {
        1 => "ESC",
        2 => "1",
        3 => "2",
        4 => "3",
        5 => "4",
        6 => "5",
        7 => "6",
        8 => "7",
        9 => "8",
        10 => "9",
        11 => " 0",
        12 => "-",
        13 => "=",
        14 => "BACKSPACE",
        15 => "<Tab>",
        16 => "Q",
        17 => "W",
        18 => "E",
        19 => "R",
        20 => "T",
        21 => "Y",
        22 => "U",
        23 => "I",
        24 => "O",
        25 => "P",
        26 => "[",
        27 => "]",
        28 => "ENTER",
        29 => "L-CTL",
        30 => "A",
        31 => "S",
        32 => "D",
        33 => "F",
        34 => "G",
        35 => "H",
        36 => "J",
        37 => "K",
        38 => "L",
        39 => ";",
        40 => "'",
        41 => "`",
        42 => "L-Shift",
        43 => "\\",
        44 => "Z",
        45 => "X",
        46 => "C",
        47 => "V",
        48 => "B",
        49 => "N",
        50 => "M",
        51 => ",",
        52 => ".",
        53 => "/",
        54 => "R-Shift",
        55 => "KPASTERISK",
        56 => "L-Alt",
        57 => "SPACE",
        58 => "CAPSLOCK",
        59 => "F1",
        60 => "F2",
        61 => "F3",
        62 => "F4",
        63 => "F5",
        64 => "F6",
        65 => "F7",
        66 => "F8",
        67 => "F9",
        68 => "F10",
        69 => "NUMLOCK",
        70 => "SCROLLLOCK",
        103 => "UP",
        105 => "LEFT",
        106 => "RIGHT",
        108 => "DOWN",
        _ => "<UNK>",
    }
}

/// Every code has a label, and a code outside the table gets the fallback.
pub proof fn lemma_label_total(code: u16)
    ensures
        !is_known_code(code) ==> label_of(code) == unknown_label(),
        is_known_code(code) ==> label_of(code) != unknown_label(),
        label_of(code).len() > 0,
{
    reveal_strlit("<UNK>");
    assert(unknown_label().len() == 5 && unknown_label()[1] == 'U');
    match code {
        1 => {
            reveal_strlit("ESC");
            assert("ESC"@.len() == 3);
        },
        2 => {
            reveal_strlit("1");
            assert("1"@.len() == 1);
        },
        3 => {
            reveal_strlit("2");
            assert("2"@.len() == 1);
        },
        4 => {
            reveal_strlit("3");
            assert("3"@.len() == 1);
        },
        5 => {
            reveal_strlit("4");
            assert("4"@.len() == 1);
        },
        6 => {
            reveal_strlit("5");
            assert("5"@.len() == 1);
        },
        7 => {
            reveal_strlit("6");
            assert("6"@.len() == 1);
        },
        8 => {
            reveal_strlit("7");
            assert("7"@.len() == 1);
        },
        9 => {
            reveal_strlit("8");
            assert("8"@.len() == 1);
        },
        10 => {
            reveal_strlit("9");
            assert("9"@.len() == 1);
        },
        11 => {
            reveal_strlit(" 0");
            assert(" 0"@.len() == 2);
        },
        12 => {
            reveal_strlit("-");
            assert("-"@.len() == 1);
        },
        13 => {
            reveal_strlit("=");
            assert("="@.len() == 1);
        },
        14 => {
            reveal_strlit("BACKSPACE");
            assert("BACKSPACE"@.len() == 9);
        },
        15 => {
            reveal_strlit("<Tab>");
            assert("<Tab>"@.len() == 5 && "<Tab>"@[1] == 'T');
        },
        16 => {
            reveal_strlit("Q");
            assert("Q"@.len() == 1);
        },
        17 => {
            reveal_strlit("W");
            assert("W"@.len() == 1);
        },
        18 => {
            reveal_strlit("E");
            assert("E"@.len() == 1);
        },
        19 => {
            reveal_strlit("R");
            assert("R"@.len() == 1);
        },
        20 => {
            reveal_strlit("T");
            assert("T"@.len() == 1);
        },
        21 => {
            reveal_strlit("Y");
            assert("Y"@.len() == 1);
        },
        22 => {
            reveal_strlit("U");
            assert("U"@.len() == 1);
        },
        23 => {
            reveal_strlit("I");
            assert("I"@.len() == 1);
        },
        24 => {
            reveal_strlit("O");
            assert("O"@.len() == 1);
        },
        25 => {
            reveal_strlit("P");
            assert("P"@.len() == 1);
        },
        26 => {
            reveal_strlit("[");
            assert("["@.len() == 1);
        },
        27 => {
            reveal_strlit("]");
            assert("]"@.len() == 1);
        },
        28 => {
            reveal_strlit("ENTER");
            assert("ENTER"@.len() == 5 && "ENTER"@[1] == 'N');
        },
        29 => {
            reveal_strlit("L-CTL");
            assert("L-CTL"@.len() == 5 && "L-CTL"@[1] == '-');
        },
        30 => {
            reveal_strlit("A");
            assert("A"@.len() == 1);
        },
        31 => {
            reveal_strlit("S");
            assert("S"@.len() == 1);
        },
        32 => {
            reveal_strlit("D");
            assert("D"@.len() == 1);
        },
        33 => {
            reveal_strlit("F");
            assert("F"@.len() == 1);
        },
        34 => {
            reveal_strlit("G");
            assert("G"@.len() == 1);
        },
        35 => {
            reveal_strlit("H");
            assert("H"@.len() == 1);
        },
        36 => {
            reveal_strlit("J");
            assert("J"@.len() == 1);
        },
        37 => {
            reveal_strlit("K");
            assert("K"@.len() == 1);
        },
        38 => {
            reveal_strlit("L");
            assert("L"@.len() == 1);
        },
        39 => {
            reveal_strlit(";");
            assert(";"@.len() == 1);
        },
        40 => {
            reveal_strlit("'");
            assert("'"@.len() == 1);
        },
        41 => {
            reveal_strlit("`");
            assert("`"@.len() == 1);
        },
        42 => {
            reveal_strlit("L-Shift");
            assert("L-Shift"@.len() == 7);
        },
        43 => {
            reveal_strlit("\\");
            assert("\\"@.len() == 1);
        },
        44 => {
            reveal_strlit("Z");
            assert("Z"@.len() == 1);
        },
        45 => {
            reveal_strlit("X");
            assert("X"@.len() == 1);
        },
        46 => {
            reveal_strlit("C");
            assert("C"@.len() == 1);
        },
        47 => {
            reveal_strlit("V");
            assert("V"@.len() == 1);
        },
        48 => {
            reveal_strlit("B");
            assert("B"@.len() == 1);
        },
        49 => {
            reveal_strlit("N");
            assert("N"@.len() == 1);
        },
        50 => {
            reveal_strlit("M");
            assert("M"@.len() == 1);
        },
        51 => {
            reveal_strlit(",");
            assert(","@.len() == 1);
        },
        52 => {
            reveal_strlit(".");
            assert("."@.len() == 1);
        },
        53 => {
            reveal_strlit("/");
            assert("/"@.len() == 1);
        },
        54 => {
            reveal_strlit("R-Shift");
            assert("R-Shift"@.len() == 7);
        },
        55 => {
            reveal_strlit("KPASTERISK");
            assert("KPASTERISK"@.len() == 10);
        },
        56 => {
            reveal_strlit("L-Alt");
            assert("L-Alt"@.len() == 5 && "L-Alt"@[1] == '-');
        },
        57 => {
            reveal_strlit("SPACE");
            assert("SPACE"@.len() == 5 && "SPACE"@[1] == 'P');
        },
        58 => {
            reveal_strlit("CAPSLOCK");
            assert("CAPSLOCK"@.len() == 8);
        },
        59 => {
            reveal_strlit("F1");
            assert("F1"@.len() == 2);
        },
        60 => {
            reveal_strlit("F2");
            assert("F2"@.len() == 2);
        },
        61 => {
            reveal_strlit("F3");
            assert("F3"@.len() == 2);
        },
        62 => {
            reveal_strlit("F4");
            assert("F4"@.len() == 2);
        },
        63 => {
            reveal_strlit("F5");
            assert("F5"@.len() == 2);
        },
        64 => {
            reveal_strlit("F6");
            assert("F6"@.len() == 2);
        },
        65 => {
            reveal_strlit("F7");
            assert("F7"@.len() == 2);
        },
        66 => {
            reveal_strlit("F8");
            assert("F8"@.len() == 2);
        },
        67 => {
            reveal_strlit("F9");
            assert("F9"@.len() == 2);
        },
        68 => {
            reveal_strlit("F10");
            assert("F10"@.len() == 3);
        },
        69 => {
            reveal_strlit("NUMLOCK");
            assert("NUMLOCK"@.len() == 7);
        },
        70 => {
            reveal_strlit("SCROLLLOCK");
            assert("SCROLLLOCK"@.len() == 10);
        },
        103 => {
            reveal_strlit("UP");
            assert("UP"@.len() == 2);
        },
        105 => {
            reveal_strlit("LEFT");
            assert("LEFT"@.len() == 4);
        },
        106 => {
            reveal_strlit("RIGHT");
            assert("RIGHT"@.len() == 5 && "RIGHT"@[1] == 'I');
        },
        108 => {
            reveal_strlit("DOWN");
            assert("DOWN"@.len() == 4);
        },
        _ => {},
    }
}

} // verus!
