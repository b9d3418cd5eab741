//! The static mapping from a physical key code to its human-readable
//! label. Unknown or unmapped codes yield the sentinel `"ERROR_KEY"`,
//! which no mapped code yields in a different role; the lookup never
//! fails. Pure data, no logic.

use vstd::prelude::*;

verus! {

/// The label of a key code, as a sequence of characters.
pub open spec fn label_of(code: u16) -> Seq<char> {
    match code {

        1 => "Esc"@,
        2 => "1"@,
        3 => "2"@,
        4 => "3"@,
        5 => "4"@,
        6 => "5"@,
        7 => "6"@,
        8 => "7"@,
        9 => "8"@,
        10 => "9"@,
        11 => "0"@,
        12 => "-"@,
        13 => "="@,
        14 => "Backspace"@,
        15 => "Tab"@,
        16 => "q"@,
        17 => "w"@,
        18 => "e"@,
        19 => "r"@,
        20 => "t"@,
        21 => "y"@,
        22 => "u"@,
        23 => "i"@,
        24 => "o"@,
        25 => "p"@,
        26 => "{"@,
        27 => "}"@,
        28 => "Enter"@,
        29 => "Ctrl"@,
        30 => "a"@,
        31 => "s"@,
        32 => "d"@,
        33 => "f"@,
        34 => "g"@,
        35 => "h"@,
        36 => "i"@,
        37 => "k"@,
        38 => "l"@,
        39 => ";"@,
        40 => "'"@,
        41 => "`"@,
        42 => "Shift"@,
        43 => "\\"@,
        44 => "z"@,
        45 => "x"@,
        46 => "c"@,
        47 => "v"@,
        48 => "b"@,
        49 => "n"@,
        50 => "m"@,
        51 => ","@,
        52 => "."@,
        53 => "/"@,
        54 => "Shift"@,
        55 => "*"@,
        56 => "Alt"@,
        57 => "Space"@,
        58 => "CapsLock"@,
        59 => "f1"@,
        60 => "f2"@,
        61 => "f3"@,
        62 => "f4"@,
        63 => "f5"@,
        64 => "f6"@,
        65 => "f7"@,
        66 => "f8"@,
        67 => "f9"@,
        68 => "f10"@,
        69 => "NumLock"@,
        70 => "ScrollLock"@,
        71 => "kp_7"@,
        72 => "kp_8"@,
        73 => "kp_9"@,
        74 => "kp_minus"@,
        75 => "kp_4"@,
        76 => "kp_5"@,
        77 => "kp_6"@,
        78 => "kp_plus"@,
        79 => "kp_1"@,
        80 => "kp_2"@,
        81 => "kp_3"@,
        82 => "kp_0"@,
        83 => "kp_dot"@,
        84 => ""@,
        85 => ""@,
        86 => ""@,
        87 => "f11"@,
        88 => "f12"@,
        89 => ""@,
        90 => ""@,
        91 => ""@,
        92 => ""@,
        93 => ""@,
        94 => ""@,
        95 => ""@,
        96 => ""@,
        97 => ""@,
        98 => ""@,
        99 => ""@,
        100 => ""@,
        101 => ""@,
        102 => "Home"@,
        103 => "Up"@,
        104 => "PageUp"@,
        105 => "Left"@,
        106 => "Right"@,
        107 => "End"@,
        108 => "Down"@,
        109 => "PageDown"@,
        110 => "Insert"@,
        111 => "Delete"@,
        112 => ""@,
        113 => ""@,
        114 => ""@,
        115 => ""@,
        116 => ""@,
        117 => ""@,
        118 => ""@,
        119 => ""@,
        120 => ""@,
        121 => ""@,
        122 => ""@,
        123 => ""@,
        124 => ""@,
        125 => "Meta"@,
        126 => "Meta"@,
        127 => ""@,
        128 => ""@,
        129 => ""@,
        130 => ""@,
        131 => ""@,
        132 => ""@,
        133 => ""@,
        134 => ""@,
        135 => ""@,
        136 => ""@,
        137 => ""@,
        138 => ""@,
        139 => ""@,
        140 => ""@,
        141 => ""@,
        142 => ""@,
        143 => ""@,
        144 => ""@,
        145 => ""@,
        146 => ""@,
        147 => ""@,
        148 => ""@,
        149 => ""@,
        150 => ""@,
        151 => ""@,
        152 => ""@,
        153 => ""@,
        154 => ""@,
        155 => ""@,
        156 => ""@,
        157 => ""@,
        158 => ""@,
        159 => ""@,
        160 => ""@,
        161 => ""@,
        162 => ""@,
        163 => ""@,
        164 => ""@,
        165 => ""@,
        166 => ""@,
        167 => ""@,
        168 => ""@,
        169 => ""@,
        170 => ""@,
        171 => ""@,
        172 => ""@,
        173 => ""@,
        174 => ""@,
        175 => ""@,
        176 => ""@,
        177 => ""@,
        178 => ""@,
        179 => ""@,
        180 => ""@,
        181 => ""@,
        182 => ""@,
        183 => ""@,
        184 => ""@,
        185 => ""@,
        186 => ""@,
        187 => ""@,
        188 => ""@,
        189 => ""@,
        190 => ""@,
        191 => ""@,
        192 => ""@,
        193 => ""@,
        194 => ""@,
        195 => ""@,
        196 => ""@,
        197 => ""@,
        198 => ""@,
        199 => ""@,
        _ => "ERROR_KEY"@,
    }
}

/// Look up the human-readable label for a key code.
pub fn code_to_keyname(code: u16) -> (r: &'static str)
    ensures
        r@ == label_of(code),
{
    match code {

        1 => "Esc",
        2 => "1",
        3 => "2",
        4 => "3",
        5 => "4",
        6 => "5",
        7 => "6",
        8 => "7",
        9 => "8",
        10 => "9",
        11 => "0",
        12 => "-",
        13 => "=",
        14 => "Backspace",
        15 => "Tab",
        16 => "q",
        17 => "w",
        18 => "e",
        19 => "r",
        20 => "t",
        21 => "y",
        22 => "u",
        23 => "i",
        24 => "o",
        25 => "p",
        26 => "{",
        27 => "}",
        28 => "Enter",
        29 => "Ctrl",
        30 => "a",
        31 => "s",
        32 => "d",
        33 => "f",
        34 => "g",
        35 => "h",
        36 => "i",
        37 => "k",
        38 => "l",
        39 => ";",
        40 => "'",
        41 => "`",
        42 => "Shift",
        43 => "\\",
        44 => "z",
        45 => "x",
        46 => "c",
        47 => "v",
        48 => "b",
        49 => "n",
        50 => "m",
        51 => ",",
        52 => ".",
        53 => "/",
        54 => "Shift",
        55 => "*",
        56 => "Alt",
        57 => "Space",
        58 => "CapsLock",
        59 => "f1",
        60 => "f2",
        61 => "f3",
        62 => "f4",
        63 => "f5",
        64 => "f6",
        65 => "f7",
        66 => "f8",
        67 => "f9",
        68 => "f10",
        69 => "NumLock",
        70 => "ScrollLock",
        71 => "kp_7",
        72 => "kp_8",
        73 => "kp_9",
        74 => "kp_minus",
        75 => "kp_4",
        76 => "kp_5",
        77 => "kp_6",
        78 => "kp_plus",
        79 => "kp_1",
        80 => "kp_2",
        81 => "kp_3",
        82 => "kp_0",
        83 => "kp_dot",
        84 => "",
        85 => "",
        86 => "",
        87 => "f11",
        88 => "f12",
        89 => "",
        90 => "",
        91 => "",
        92 => "",
        93 => "",
        94 => "",
        95 => "",
        96 => "",
        97 => "",
        98 => "",
        99 => "",
        100 => "",
        101 => "",
        102 => "Home",
        103 => "Up",
        104 => "PageUp",
        105 => "Left",
        106 => "Right",
        107 => "End",
        108 => "Down",
        109 => "PageDown",
        110 => "Insert",
        111 => "Delete",
        112 => "",
        113 => "",
        114 => "",
        115 => "",
        116 => "",
        117 => "",
        118 => "",
        119 => "",
        120 => "",
        121 => "",
        122 => "",
        123 => "",
        124 => "",
        125 => "Meta",
        126 => "Meta",
        127 => "",
        128 => "",
        129 => "",
        130 => "",
        131 => "",
        132 => "",
        133 => "",
        134 => "",
        135 => "",
        136 => "",
        137 => "",
        138 => "",
        139 => "",
        140 => "",
        141 => "",
        142 => "",
        143 => "",
        144 => "",
        145 => "",
        146 => "",
        147 => "",
        148 => "",
        149 => "",
        150 => "",
        151 => "",
        152 => "",
        153 => "",
        154 => "",
        155 => "",
        156 => "",
        157 => "",
        158 => "",
        159 => "",
        160 => "",
        161 => "",
        162 => "",
        163 => "",
        164 => "",
        165 => "",
        166 => "",
        167 => "",
        168 => "",
        169 => "",
        170 => "",
        171 => "",
        172 => "",
        173 => "",
        174 => "",
        175 => "",
        176 => "",
        177 => "",
        178 => "",
        179 => "",
        180 => "",
        181 => "",
        182 => "",
        183 => "",
        184 => "",
        185 => "",
        186 => "",
        187 => "",
        188 => "",
        189 => "",
        190 => "",
        191 => "",
        192 => "",
        193 => "",
        194 => "",
        195 => "",
        196 => "",
        197 => "",
        198 => "",
        199 => "",
        _ => "ERROR_KEY",
    }
}

/// A code outside the mapped range carries the sentinel label.
pub proof fn lemma_unmapped_is_sentinel(code: u16)
    requires
        code == 0 || code > 199,
    ensures
        label_of(code) == "ERROR_KEY"@,
{
}

} // verus!
