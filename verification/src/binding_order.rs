//! The key sequences of the binding table are in the order that building the
//! command tree from it keeps, so that each of them reaches its action.
use crate::command_tree::{
    TableEntry, binding_table, is_key_prefix, keys_in_order, table_part_1, table_part_10, table_part_11,
    table_part_12, table_part_2, table_part_3, table_part_4, table_part_5, table_part_6, table_part_7, table_part_8,
    table_part_9,
};
use crate::keys::Key;
use vstd::prelude::*;

verus! {

/// The base in which [`key_code`] writes a key sequence: above every
/// [`key_number`], plus one.
pub open spec fn code_base() -> int {
    0x120000
}

/// A number for each key, different for different keys and below
/// [`code_base`] less one.
pub open spec fn key_number(k: Key) -> int {
    match k {
        Key::Char(c) => c as int,
        Key::F(n) => 0x110000 + n as int,
        Key::Backspace => 0x110100,
        Key::Enter => 0x110101,
        Key::Left => 0x110102,
        Key::Right => 0x110103,
        Key::Up => 0x110104,
        Key::Down => 0x110105,
        Key::Home => 0x110106,
        Key::End => 0x110107,
        Key::PageUp => 0x110108,
        Key::PageDown => 0x110109,
        Key::Tab => 0x11010a,
        Key::BackTab => 0x11010b,
        Key::Delete => 0x11010c,
        Key::Insert => 0x11010d,
        Key::Null => 0x11010e,
        Key::Esc => 0x11010f,
        Key::CapsLock => 0x110110,
        Key::ScrollLock => 0x110111,
        Key::NumLock => 0x110112,
        Key::PrintScreen => 0x110113,
        Key::Pause => 0x110114,
        Key::Menu => 0x110115,
        Key::KeypadBegin => 0x110116,
    }
}

/// A key sequence as a number: its keys as digits in base [`code_base`],
/// each its [`key_number`] plus one.
pub open spec fn key_code(keys: Seq<Key>) -> int
    decreases keys.len(),
{
    if keys.len() == 0 {
        0
    } else {
        key_code(keys.drop_last()) * code_base() + key_number(keys.last()) + 1
    }
}

/// Different keys have different numbers, in range.
proof fn lemma_key_number(a: Key, b: Key)
    ensures
        0 <= key_number(a) < code_base() - 1,
        key_number(a) == key_number(b) ==> a == b,
{
    match (a, b) {
        (Key::Char(c), Key::Char(d)) => {
            if c as int == d as int {
                vstd::utf8::char_u32_cast(c, c as u32);
                vstd::utf8::char_u32_cast(d, d as u32);
            }
        },
        _ => {},
    }
}

/// The code of a key sequence is not negative, and is zero for no keys only.
proof fn lemma_key_code_sign(keys: Seq<Key>)
    ensures
        keys.len() == 0 <==> key_code(keys) == 0,
        key_code(keys) >= 0,
    decreases keys.len(),
{
    if keys.len() > 0 {
        lemma_key_code_sign(keys.drop_last());
        lemma_key_number(keys.last(), keys.last());
        let x = key_code(keys.drop_last());
        assert(x * code_base() >= 0) by (nonlinear_arith)
            requires
                x >= 0,
        ;
    }
}

/// Two digits in one base give the same number only when they are the same.
proof fn lemma_digits(x: int, d: int, y: int, e: int, base: int)
    by (nonlinear_arith)
    requires
        x >= 0,
        y >= 0,
        1 <= d < base,
        1 <= e < base,
        x * base + d == y * base + e,
    ensures
        x == y,
        d == e,
{
    if x < y {
        assert(y * base >= (x + 1) * base);
    } else if x > y {
        assert(x * base >= (y + 1) * base);
    }
}

/// Key sequences with the same code are the same.
pub proof fn lemma_key_code_injective(a: Seq<Key>, b: Seq<Key>)
    requires
        key_code(a) == key_code(b),
    ensures
        a == b,
    decreases a.len(),
{
    lemma_key_code_sign(a);
    lemma_key_code_sign(b);
    if a.len() == 0 || b.len() == 0 {
        assert(a =~= b);
    } else {
        lemma_key_code_sign(a.drop_last());
        lemma_key_code_sign(b.drop_last());
        lemma_key_number(a.last(), b.last());
        lemma_key_number(b.last(), a.last());
        lemma_digits(
            key_code(a.drop_last()),
            key_number(a.last()) + 1,
            key_code(b.drop_last()),
            key_number(b.last()) + 1,
            code_base(),
        );
        lemma_key_code_injective(a.drop_last(), b.drop_last());
        assert(a =~= a.drop_last().push(a.last()));
        assert(b =~= b.drop_last().push(b.last()));
    }
}

/// Entry `e` has the number of keys, code, last key and kind of node that
/// the table data gives for entry `k`.
#[verifier::opaque]
spec fn entry_fits_data(e: TableEntry, k: int) -> bool {
    &&& e.keys.len() == table_len(k)
    &&& key_code(e.keys) == table_code(k)
    &&& e.keys.len() > 0 ==> key_number(e.keys.last()) == table_last(k)
    &&& !(e.kind is Action) == table_group(k)
}

/// Entry `k` of `t` fits the table data for entry `k`.
#[verifier::opaque]
spec fn entry_matches(t: Seq<TableEntry>, k: int) -> bool {
    entry_fits_data(t[k], k)
}

/// What the table data says of entry `k` and of place `k`: the entry has
/// keys; where it has more than one, its parent comes earlier, has children,
/// and has its keys but the last; it is listed at its place in the sorted
/// order; and the code grows from place `k` to the next.
#[verifier::opaque]
spec fn order_facts(k: int) -> bool {
    let p = table_parent(k);
    &&& table_len(k) > 0
    &&& table_len(k) > 1 ==> {
        &&& 0 <= p < k
        &&& table_group(p)
        &&& table_len(k) == table_len(p) + 1
        &&& table_code(k) == table_code(p) * code_base() + table_last(k) + 1
    }
    &&& 0 <= table_rank(k) < 230
    &&& table_sorted(table_rank(k)) == k
    &&& 0 <= table_sorted(k) < 230
    &&& k + 1 < 230 ==> table_code(table_sorted(k)) < table_code(table_sorted(k + 1))
}

/// The number of keys of entry `k`.
#[verifier::opaque]
spec fn table_len(k: int) -> int {
    if k == 0 {
        1
    } else if k == 1 {
        2
    } else if k == 2 {
        2
    } else if k == 3 {
        2
    } else if k == 4 {
        1
    } else if k == 5 {
        2
    } else if k == 6 {
        2
    } else if k == 7 {
        3
    } else if k == 8 {
        1
    } else if k == 9 {
        1
    } else if k == 10 {
        2
    } else if k == 11 {
        2
    } else if k == 12 {
        3
    } else if k == 13 {
        3
    } else if k == 14 {
        3
    } else if k == 15 {
        3
    } else if k == 16 {
        3
    } else if k == 17 {
        2
    } else if k == 18 {
        3
    } else if k == 19 {
        4
    } else if k == 20 {
        3
    } else if k == 21 {
        4
    } else if k == 22 {
        3
    } else if k == 23 {
        2
    } else if k == 24 {
        2
    } else if k == 25 {
        2
    } else if k == 26 {
        2
    } else if k == 27 {
        2
    } else if k == 28 {
        2
    } else if k == 29 {
        2
    } else if k == 30 {
        2
    } else if k == 31 {
        1
    } else if k == 32 {
        2
    } else if k == 33 {
        1
    } else if k == 34 {
        2
    } else if k == 35 {
        2
    } else if k == 36 {
        1
    } else if k == 37 {
        2
    } else if k == 38 {
        1
    } else if k == 39 {
        2
    } else if k == 40 {
        2
    } else if k == 41 {
        2
    } else if k == 42 {
        2
    } else if k == 43 {
        3
    } else if k == 44 {
        2
    } else if k == 45 {
        3
    } else if k == 46 {
        2
    } else if k == 47 {
        3
    } else if k == 48 {
        1
    } else if k == 49 {
        2
    } else if k == 50 {
        2
    } else if k == 51 {
        1
    } else if k == 52 {
        2
    } else if k == 53 {
        2
    } else if k == 54 {
        1
    } else if k == 55 {
        2
    } else if k == 56 {
        2
    } else if k == 57 {
        1
    } else if k == 58 {
        2
    } else if k == 59 {
        3
    } else if k == 60 {
        3
    } else if k == 61 {
        3
    } else if k == 62 {
        3
    } else if k == 63 {
        3
    } else if k == 64 {
        2
    } else if k == 65 {
        3
    } else if k == 66 {
        3
    } else if k == 67 {
        3
    } else if k == 68 {
        3
    } else if k == 69 {
        3
    } else if k == 70 {
        3
    } else if k == 71 {
        3
    } else if k == 72 {
        3
    } else if k == 73 {
        1
    } else if k == 74 {
        2
    } else if k == 75 {
        2
    } else if k == 76 {
        2
    } else if k == 77 {
        3
    } else if k == 78 {
        1
    } else if k == 79 {
        2
    } else if k == 80 {
        2
    } else if k == 81 {
        2
    } else if k == 82 {
        2
    } else if k == 83 {
        2
    } else if k == 84 {
        2
    } else if k == 85 {
        1
    } else if k == 86 {
        2
    } else if k == 87 {
        2
    } else if k == 88 {
        2
    } else if k == 89 {
        2
    } else if k == 90 {
        2
    } else if k == 91 {
        2
    } else if k == 92 {
        2
    } else if k == 93 {
        2
    } else if k == 94 {
        2
    } else if k == 95 {
        2
    } else if k == 96 {
        2
    } else if k == 97 {
        1
    } else if k == 98 {
        2
    } else if k == 99 {
        2
    } else if k == 100 {
        2
    } else if k == 101 {
        2
    } else if k == 102 {
        2
    } else if k == 103 {
        2
    } else if k == 104 {
        2
    } else if k == 105 {
        1
    } else if k == 106 {
        1
    } else if k == 107 {
        1
    } else if k == 108 {
        1
    } else if k == 109 {
        2
    } else if k == 110 {
        2
    } else if k == 111 {
        3
    } else if k == 112 {
        2
    } else if k == 113 {
        2
    } else if k == 114 {
        2
    } else if k == 115 {
        2
    } else if k == 116 {
        2
    } else if k == 117 {
        2
    } else if k == 118 {
        2
    } else if k == 119 {
        2
    } else if k == 120 {
        1
    } else if k == 121 {
        2
    } else if k == 122 {
        2
    } else if k == 123 {
        2
    } else if k == 124 {
        2
    } else if k == 125 {
        2
    } else if k == 126 {
        2
    } else if k == 127 {
        2
    } else if k == 128 {
        1
    } else if k == 129 {
        2
    } else if k == 130 {
        2
    } else if k == 131 {
        3
    } else if k == 132 {
        1
    } else if k == 133 {
        1
    } else if k == 134 {
        2
    } else if k == 135 {
        2
    } else if k == 136 {
        3
    } else if k == 137 {
        2
    } else if k == 138 {
        2
    } else if k == 139 {
        3
    } else if k == 140 {
        1
    } else if k == 141 {
        2
    } else if k == 142 {
        2
    } else if k == 143 {
        1
    } else if k == 144 {
        2
    } else if k == 145 {
        2
    } else if k == 146 {
        2
    } else if k == 147 {
        2
    } else if k == 148 {
        2
    } else if k == 149 {
        2
    } else if k == 150 {
        3
    } else if k == 151 {
        3
    } else if k == 152 {
        3
    } else if k == 153 {
        4
    } else if k == 154 {
        4
    } else if k == 155 {
        4
    } else if k == 156 {
        4
    } else if k == 157 {
        4
    } else if k == 158 {
        4
    } else if k == 159 {
        4
    } else if k == 160 {
        4
    } else if k == 161 {
        4
    } else if k == 162 {
        4
    } else if k == 163 {
        4
    } else if k == 164 {
        4
    } else if k == 165 {
        3
    } else if k == 166 {
        3
    } else if k == 167 {
        3
    } else if k == 168 {
        4
    } else if k == 169 {
        4
    } else if k == 170 {
        4
    } else if k == 171 {
        4
    } else if k == 172 {
        4
    } else if k == 173 {
        4
    } else if k == 174 {
        4
    } else if k == 175 {
        4
    } else if k == 176 {
        4
    } else if k == 177 {
        4
    } else if k == 178 {
        4
    } else if k == 179 {
        4
    } else if k == 180 {
        3
    } else if k == 181 {
        3
    } else if k == 182 {
        3
    } else if k == 183 {
        4
    } else if k == 184 {
        4
    } else if k == 185 {
        4
    } else if k == 186 {
        4
    } else if k == 187 {
        4
    } else if k == 188 {
        4
    } else if k == 189 {
        4
    } else if k == 190 {
        4
    } else if k == 191 {
        4
    } else if k == 192 {
        4
    } else if k == 193 {
        4
    } else if k == 194 {
        4
    } else if k == 195 {
        1
    } else if k == 196 {
        2
    } else if k == 197 {
        2
    } else if k == 198 {
        2
    } else if k == 199 {
        2
    } else if k == 200 {
        2
    } else if k == 201 {
        3
    } else if k == 202 {
        1
    } else if k == 203 {
        2
    } else if k == 204 {
        2
    } else if k == 205 {
        2
    } else if k == 206 {
        2
    } else if k == 207 {
        2
    } else if k == 208 {
        3
    } else if k == 209 {
        1
    } else if k == 210 {
        2
    } else if k == 211 {
        2
    } else if k == 212 {
        3
    } else if k == 213 {
        2
    } else if k == 214 {
        3
    } else if k == 215 {
        2
    } else if k == 216 {
        3
    } else if k == 217 {
        1
    } else if k == 218 {
        2
    } else if k == 219 {
        3
    } else if k == 220 {
        3
    } else if k == 221 {
        2
    } else if k == 222 {
        3
    } else if k == 223 {
        3
    } else if k == 224 {
        3
    } else if k == 225 {
        2
    } else if k == 226 {
        2
    } else if k == 227 {
        2
    } else if k == 228 {
        1
    } else if k == 229 {
        1
    } else {
        0
    }
}

/// The [`key_code`] of the keys of entry `k`.
#[verifier::opaque]
spec fn table_code(k: int) -> int {
    if k == 0 {
        98
    } else if k == 1 {
        115605602
    } else if k == 2 {
        115605603
    } else if k == 3 {
        115605605
    } else if k == 4 {
        66
    } else if k == 5 {
        77856866
    } else if k == 6 {
        77856874
    } else if k == 7 {
        91843706814722
    } else if k == 8 {
        99
    } else if k == 9 {
        68
    } else if k == 10 {
        116785252
    } else if k == 11 {
        116785229
    } else if k == 12 {
        137765461819490
    } else if k == 13 {
        137765461819469
    } else if k == 14 {
        137765461819509
    } else if k == 15 {
        137765461819510
    } else if k == 16 {
        137765461819492
    } else if k == 17 {
        116785262
    } else if k == 18 {
        137765500747886
    } else if k == 19 {
        162514797426243338498
    } else if k == 20 {
        137765500747854
    } else if k == 21 {
        162514797426205589762
    } else if k == 22 {
        137765500747893
    } else if k == 23 {
        116785267
    } else if k == 24 {
        116785269
    } else if k == 25 {
        116785270
    } else if k == 26 {
        116785253
    } else if k == 27 {
        116785255
    } else if k == 28 {
        116785223
    } else if k == 29 {
        116785268
    } else if k == 30 {
        116785236
    } else if k == 31 {
        100
    } else if k == 32 {
        117964900
    } else if k == 33 {
        101
    } else if k == 34 {
        119144549
    } else if k == 35 {
        119144517
    } else if k == 36 {
        69
    } else if k == 37 {
        81395813
    } else if k == 38 {
        48
    } else if k == 39 {
        56623152
    } else if k == 40 {
        56623203
    } else if k == 41 {
        56623205
    } else if k == 42 {
        81395824
    } else if k == 43 {
        96018422104322
    } else if k == 44 {
        81395810
    } else if k == 45 {
        96018405589250
    } else if k == 46 {
        81395811
    } else if k == 47 {
        96018406768898
    } else if k == 48 {
        102
    } else if k == 49 {
        120324198
    } else if k == 50 {
        120324144
    } else if k == 51 {
        70
    } else if k == 52 {
        82575462
    } else if k == 53 {
        82575430
    } else if k == 54 {
        103
    } else if k == 55 {
        121503861
    } else if k == 56 {
        121503862
    } else if k == 57 {
        104
    } else if k == 58 {
        122683495
    } else if k == 59 {
        144723339509863
    } else if k == 60 {
        144723339509858
    } else if k == 61 {
        144723339509877
    } else if k == 62 {
        144723339509859
    } else if k == 63 {
        144723339509875
    } else if k == 64 {
        122683505
    } else if k == 65 {
        144723351306353
    } else if k == 66 {
        144723351306338
    } else if k == 67 {
        144723351306355
    } else if k == 68 {
        144723351306357
    } else if k == 69 {
        144723351306341
    } else if k == 70 {
        144723351306340
    } else if k == 71 {
        144723351306351
    } else if k == 72 {
        144723351306339
    } else if k == 73 {
        106
    } else if k == 74 {
        125042805
    } else if k == 75 {
        125042791
    } else if k == 76 {
        125042794
    } else if k == 77 {
        147506482970882
    } else if k == 78 {
        110
    } else if k == 79 {
        129761380
    } else if k == 80 {
        129761397
    } else if k == 81 {
        129761378
    } else if k == 82 {
        129761346
    } else if k == 83 {
        129761365
    } else if k == 84 {
        129761395
    } else if k == 85 {
        77
    } else if k == 86 {
        90832997
    } else if k == 87 {
        90832965
    } else if k == 88 {
        90832973
    } else if k == 89 {
        90832994
    } else if k == 90 {
        90833006
    } else if k == 91 {
        90833012
    } else if k == 92 {
        90832996
    } else if k == 93 {
        90833016
    } else if k == 94 {
        90833002
    } else if k == 95 {
        90832995
    } else if k == 96 {
        90833011
    } else if k == 97 {
        111
    } else if k == 98 {
        130941039
    } else if k == 99 {
        130941026
    } else if k == 100 {
        130941027
    } else if k == 101 {
        130941038
    } else if k == 102 {
        130941006
    } else if k == 103 {
        130940976
    } else if k == 104 {
        130941043
    } else if k == 105 {
        79
    } else if k == 106 {
        112
    } else if k == 107 {
        80
    } else if k == 108 {
        113
    } else if k == 109 {
        133300337
    } else if k == 110 {
        133300305
    } else if k == 111 {
        157247439307010
    } else if k == 112 {
        133300339
    } else if k == 113 {
        93192303
    } else if k == 114 {
        93192271
    } else if k == 115 {
        93192294
    } else if k == 116 {
        93192262
    } else if k == 117 {
        93192313
    } else if k == 118 {
        93192281
    } else if k == 119 {
        93192292
    } else if k == 120 {
        81
    } else if k == 121 {
        95551601
    } else if k == 122 {
        95551569
    } else if k == 123 {
        95551590
    } else if k == 124 {
        95551558
    } else if k == 125 {
        95551609
    } else if k == 126 {
        95551577
    } else if k == 127 {
        95551588
    } else if k == 128 {
        116
    } else if k == 129 {
        136839284
    } else if k == 130 {
        136839274
    } else if k == 131 {
        161422177009922
    } else if k == 132 {
        117
    } else if k == 133 {
        84
    } else if k == 134 {
        99090548
    } else if k == 135 {
        99090516
    } else if k == 136 {
        116891930132738
    } else if k == 137 {
        99090550
    } else if k == 138 {
        99090518
    } else if k == 139 {
        116891932492034
    } else if k == 140 {
        122
    } else if k == 141 {
        143917178
    } else if k == 142 {
        143917146
    } else if k == 143 {
        115
    } else if k == 144 {
        135659619
    } else if k == 145 {
        135659630
    } else if k == 146 {
        135659598
    } else if k == 147 {
        135659636
    } else if k == 148 {
        135659635
    } else if k == 149 {
        135659620
    } else if k == 150 {
        160030598234210
    } else if k == 151 {
        160030598234211
    } else if k == 152 {
        160030598234224
    } else if k == 153 {
        188779775145790472450
    } else if k == 154 {
        188779775145789358190
    } else if k == 155 {
        188779775145789358180
    } else if k == 156 {
        188779775145789358128
    } else if k == 157 {
        188779775145791652098
    } else if k == 158 {
        188779775145790537838
    } else if k == 159 {
        188779775145790537828
    } else if k == 160 {
        188779775145790537776
    } else if k == 161 {
        188779775145806987522
    } else if k == 162 {
        188779775145805873262
    } else if k == 163 {
        188779775145805873252
    } else if k == 164 {
        188779775145805873200
    } else if k == 165 {
        160030618288226
    } else if k == 166 {
        160030618288227
    } else if k == 167 {
        160030618288240
    } else if k == 168 {
        188779798802470338818
    } else if k == 169 {
        188779798802469224558
    } else if k == 170 {
        188779798802469224548
    } else if k == 171 {
        188779798802469224496
    } else if k == 172 {
        188779798802471518466
    } else if k == 173 {
        188779798802470404206
    } else if k == 174 {
        188779798802470404196
    } else if k == 175 {
        188779798802470404144
    } else if k == 176 {
        188779798802486853890
    } else if k == 177 {
        188779798802485739630
    } else if k == 178 {
        188779798802485739620
    } else if k == 179 {
        188779798802485739568
    } else if k == 180 {
        160030617108578
    } else if k == 181 {
        160030617108579
    } else if k == 182 {
        160030617108592
    } else if k == 183 {
        188779797410900934914
    } else if k == 184 {
        188779797410899820654
    } else if k == 185 {
        188779797410899820644
    } else if k == 186 {
        188779797410899820592
    } else if k == 187 {
        188779797410902114562
    } else if k == 188 {
        188779797410901000302
    } else if k == 189 {
        188779797410901000292
    } else if k == 190 {
        188779797410901000240
    } else if k == 191 {
        188779797410917449986
    } else if k == 192 {
        188779797410916335726
    } else if k == 193 {
        188779797410916335716
    } else if k == 194 {
        188779797410916335664
    } else if k == 195 {
        83
    } else if k == 196 {
        97910899
    } else if k == 197 {
        97910885
    } else if k == 198 {
        97910887
    } else if k == 199 {
        97910890
    } else if k == 200 {
        97910867
    } else if k == 201 {
        115500359549186
    } else if k == 202 {
        119
    } else if k == 203 {
        140378231
    } else if k == 204 {
        140378215
    } else if k == 205 {
        140378222
    } else if k == 206 {
        140378229
    } else if k == 207 {
        140378199
    } else if k == 208 {
        165596862808322
    } else if k == 209 {
        87
    } else if k == 210 {
        102629495
    } else if k == 211 {
        102629488
    } else if k == 212 {
        121066671374594
    } else if k == 213 {
        102629474
    } else if k == 214 {
        121066654859522
    } else if k == 215 {
        102629475
    } else if k == 216 {
        121066656039170
    } else if k == 217 {
        120
    } else if k == 218 {
        141557858
    } else if k == 219 {
        166988444074082
    } else if k == 220 {
        166988444074095
    } else if k == 221 {
        141557863
    } else if k == 222 {
        166988449972324
    } else if k == 223 {
        166988449972272
    } else if k == 224 {
        166988449972327
    } else if k == 225 {
        141557837
    } else if k == 226 {
        141557875
    } else if k == 227 {
        141557878
    } else if k == 228 {
        118
    } else if k == 229 {
        86
    } else {
        0
    }
}

/// The [`key_number`] of the last key of entry `k`.
#[verifier::opaque]
spec fn table_last(k: int) -> int {
    if k == 0 {
        97
    } else if k == 1 {
        97
    } else if k == 2 {
        98
    } else if k == 3 {
        100
    } else if k == 4 {
        65
    } else if k == 5 {
        97
    } else if k == 6 {
        105
    } else if k == 7 {
        1114369
    } else if k == 8 {
        98
    } else if k == 9 {
        67
    } else if k == 10 {
        99
    } else if k == 11 {
        76
    } else if k == 12 {
        97
    } else if k == 13 {
        76
    } else if k == 14 {
        116
    } else if k == 15 {
        117
    } else if k == 16 {
        99
    } else if k == 17 {
        109
    } else if k == 18 {
        109
    } else if k == 19 {
        1114369
    } else if k == 20 {
        77
    } else if k == 21 {
        1114369
    } else if k == 22 {
        116
    } else if k == 23 {
        114
    } else if k == 24 {
        116
    } else if k == 25 {
        117
    } else if k == 26 {
        100
    } else if k == 27 {
        102
    } else if k == 28 {
        70
    } else if k == 29 {
        115
    } else if k == 30 {
        83
    } else if k == 31 {
        99
    } else if k == 32 {
        99
    } else if k == 33 {
        100
    } else if k == 34 {
        100
    } else if k == 35 {
        68
    } else if k == 36 {
        68
    } else if k == 37 {
        100
    } else if k == 38 {
        47
    } else if k == 39 {
        47
    } else if k == 40 {
        98
    } else if k == 41 {
        100
    } else if k == 42 {
        111
    } else if k == 43 {
        1114369
    } else if k == 44 {
        97
    } else if k == 45 {
        1114369
    } else if k == 46 {
        98
    } else if k == 47 {
        1114369
    } else if k == 48 {
        101
    } else if k == 49 {
        101
    } else if k == 50 {
        47
    } else if k == 51 {
        69
    } else if k == 52 {
        101
    } else if k == 53 {
        69
    } else if k == 54 {
        102
    } else if k == 55 {
        116
    } else if k == 56 {
        117
    } else if k == 57 {
        103
    } else if k == 58 {
        102
    } else if k == 59 {
        102
    } else if k == 60 {
        97
    } else if k == 61 {
        116
    } else if k == 62 {
        98
    } else if k == 63 {
        114
    } else if k == 64 {
        112
    } else if k == 65 {
        112
    } else if k == 66 {
        97
    } else if k == 67 {
        114
    } else if k == 68 {
        116
    } else if k == 69 {
        100
    } else if k == 70 {
        99
    } else if k == 71 {
        110
    } else if k == 72 {
        98
    } else if k == 73 {
        105
    } else if k == 74 {
        116
    } else if k == 75 {
        102
    } else if k == 76 {
        105
    } else if k == 77 {
        1114369
    } else if k == 78 {
        109
    } else if k == 79 {
        99
    } else if k == 80 {
        116
    } else if k == 81 {
        97
    } else if k == 82 {
        65
    } else if k == 83 {
        84
    } else if k == 84 {
        114
    } else if k == 85 {
        76
    } else if k == 86 {
        100
    } else if k == 87 {
        68
    } else if k == 88 {
        76
    } else if k == 89 {
        97
    } else if k == 90 {
        109
    } else if k == 91 {
        115
    } else if k == 92 {
        99
    } else if k == 93 {
        119
    } else if k == 94 {
        105
    } else if k == 95 {
        98
    } else if k == 96 {
        114
    } else if k == 97 {
        110
    } else if k == 98 {
        110
    } else if k == 99 {
        97
    } else if k == 100 {
        98
    } else if k == 101 {
        109
    } else if k == 102 {
        77
    } else if k == 103 {
        47
    } else if k == 104 {
        114
    } else if k == 105 {
        78
    } else if k == 106 {
        111
    } else if k == 107 {
        79
    } else if k == 108 {
        112
    } else if k == 109 {
        112
    } else if k == 110 {
        80
    } else if k == 111 {
        1114369
    } else if k == 112 {
        114
    } else if k == 113 {
        110
    } else if k == 114 {
        78
    } else if k == 115 {
        101
    } else if k == 116 {
        69
    } else if k == 117 {
        120
    } else if k == 118 {
        88
    } else if k == 119 {
        99
    } else if k == 120 {
        80
    } else if k == 121 {
        112
    } else if k == 122 {
        80
    } else if k == 123 {
        101
    } else if k == 124 {
        69
    } else if k == 125 {
        120
    } else if k == 126 {
        88
    } else if k == 127 {
        99
    } else if k == 128 {
        115
    } else if k == 129 {
        115
    } else if k == 130 {
        105
    } else if k == 131 {
        1114369
    } else if k == 132 {
        116
    } else if k == 133 {
        83
    } else if k == 134 {
        115
    } else if k == 135 {
        83
    } else if k == 136 {
        1114369
    } else if k == 137 {
        117
    } else if k == 138 {
        85
    } else if k == 139 {
        1114369
    } else if k == 140 {
        121
    } else if k == 141 {
        121
    } else if k == 142 {
        89
    } else if k == 143 {
        114
    } else if k == 144 {
        98
    } else if k == 145 {
        109
    } else if k == 146 {
        77
    } else if k == 147 {
        115
    } else if k == 148 {
        114
    } else if k == 149 {
        99
    } else if k == 150 {
        97
    } else if k == 151 {
        98
    } else if k == 152 {
        111
    } else if k == 153 {
        1114369
    } else if k == 154 {
        109
    } else if k == 155 {
        99
    } else if k == 156 {
        47
    } else if k == 157 {
        1114369
    } else if k == 158 {
        109
    } else if k == 159 {
        99
    } else if k == 160 {
        47
    } else if k == 161 {
        1114369
    } else if k == 162 {
        109
    } else if k == 163 {
        99
    } else if k == 164 {
        47
    } else if k == 165 {
        97
    } else if k == 166 {
        98
    } else if k == 167 {
        111
    } else if k == 168 {
        1114369
    } else if k == 169 {
        109
    } else if k == 170 {
        99
    } else if k == 171 {
        47
    } else if k == 172 {
        1114369
    } else if k == 173 {
        109
    } else if k == 174 {
        99
    } else if k == 175 {
        47
    } else if k == 176 {
        1114369
    } else if k == 177 {
        109
    } else if k == 178 {
        99
    } else if k == 179 {
        47
    } else if k == 180 {
        97
    } else if k == 181 {
        98
    } else if k == 182 {
        111
    } else if k == 183 {
        1114369
    } else if k == 184 {
        109
    } else if k == 185 {
        99
    } else if k == 186 {
        47
    } else if k == 187 {
        1114369
    } else if k == 188 {
        109
    } else if k == 189 {
        99
    } else if k == 190 {
        47
    } else if k == 191 {
        1114369
    } else if k == 192 {
        109
    } else if k == 193 {
        99
    } else if k == 194 {
        47
    } else if k == 195 {
        82
    } else if k == 196 {
        114
    } else if k == 197 {
        100
    } else if k == 198 {
        102
    } else if k == 199 {
        105
    } else if k == 200 {
        82
    } else if k == 201 {
        1114369
    } else if k == 202 {
        118
    } else if k == 203 {
        118
    } else if k == 204 {
        102
    } else if k == 205 {
        109
    } else if k == 206 {
        116
    } else if k == 207 {
        86
    } else if k == 208 {
        1114369
    } else if k == 209 {
        86
    } else if k == 210 {
        118
    } else if k == 211 {
        111
    } else if k == 212 {
        1114369
    } else if k == 213 {
        97
    } else if k == 214 {
        1114369
    } else if k == 215 {
        98
    } else if k == 216 {
        1114369
    } else if k == 217 {
        119
    } else if k == 218 {
        97
    } else if k == 219 {
        97
    } else if k == 220 {
        110
    } else if k == 221 {
        102
    } else if k == 222 {
        99
    } else if k == 223 {
        47
    } else if k == 224 {
        102
    } else if k == 225 {
        76
    } else if k == 226 {
        114
    } else if k == 227 {
        117
    } else if k == 228 {
        117
    } else if k == 229 {
        85
    } else {
        0
    }
}

/// Whether the node of entry `k` has children.
#[verifier::opaque]
spec fn table_group(k: int) -> bool {
    if k == 0 {
        true
    } else if k == 1 {
        false
    } else if k == 2 {
        false
    } else if k == 3 {
        false
    } else if k == 4 {
        true
    } else if k == 5 {
        false
    } else if k == 6 {
        true
    } else if k == 7 {
        false
    } else if k == 8 {
        true
    } else if k == 9 {
        false
    } else if k == 10 {
        false
    } else if k == 11 {
        true
    } else if k == 12 {
        false
    } else if k == 13 {
        false
    } else if k == 14 {
        false
    } else if k == 15 {
        false
    } else if k == 16 {
        false
    } else if k == 17 {
        true
    } else if k == 18 {
        true
    } else if k == 19 {
        false
    } else if k == 20 {
        true
    } else if k == 21 {
        false
    } else if k == 22 {
        false
    } else if k == 23 {
        false
    } else if k == 24 {
        false
    } else if k == 25 {
        false
    } else if k == 26 {
        false
    } else if k == 27 {
        false
    } else if k == 28 {
        false
    } else if k == 29 {
        false
    } else if k == 30 {
        false
    } else if k == 31 {
        true
    } else if k == 32 {
        false
    } else if k == 33 {
        true
    } else if k == 34 {
        false
    } else if k == 35 {
        false
    } else if k == 36 {
        true
    } else if k == 37 {
        false
    } else if k == 38 {
        true
    } else if k == 39 {
        false
    } else if k == 40 {
        false
    } else if k == 41 {
        false
    } else if k == 42 {
        true
    } else if k == 43 {
        false
    } else if k == 44 {
        true
    } else if k == 45 {
        false
    } else if k == 46 {
        true
    } else if k == 47 {
        false
    } else if k == 48 {
        true
    } else if k == 49 {
        false
    } else if k == 50 {
        false
    } else if k == 51 {
        true
    } else if k == 52 {
        false
    } else if k == 53 {
        false
    } else if k == 54 {
        true
    } else if k == 55 {
        false
    } else if k == 56 {
        false
    } else if k == 57 {
        true
    } else if k == 58 {
        true
    } else if k == 59 {
        false
    } else if k == 60 {
        false
    } else if k == 61 {
        false
    } else if k == 62 {
        false
    } else if k == 63 {
        false
    } else if k == 64 {
        true
    } else if k == 65 {
        false
    } else if k == 66 {
        false
    } else if k == 67 {
        false
    } else if k == 68 {
        false
    } else if k == 69 {
        false
    } else if k == 70 {
        false
    } else if k == 71 {
        false
    } else if k == 72 {
        false
    } else if k == 73 {
        true
    } else if k == 74 {
        false
    } else if k == 75 {
        false
    } else if k == 76 {
        true
    } else if k == 77 {
        false
    } else if k == 78 {
        true
    } else if k == 79 {
        false
    } else if k == 80 {
        false
    } else if k == 81 {
        false
    } else if k == 82 {
        false
    } else if k == 83 {
        false
    } else if k == 84 {
        false
    } else if k == 85 {
        true
    } else if k == 86 {
        false
    } else if k == 87 {
        false
    } else if k == 88 {
        false
    } else if k == 89 {
        false
    } else if k == 90 {
        false
    } else if k == 91 {
        false
    } else if k == 92 {
        false
    } else if k == 93 {
        false
    } else if k == 94 {
        false
    } else if k == 95 {
        false
    } else if k == 96 {
        false
    } else if k == 97 {
        true
    } else if k == 98 {
        false
    } else if k == 99 {
        false
    } else if k == 100 {
        false
    } else if k == 101 {
        false
    } else if k == 102 {
        false
    } else if k == 103 {
        false
    } else if k == 104 {
        false
    } else if k == 105 {
        true
    } else if k == 106 {
        false
    } else if k == 107 {
        false
    } else if k == 108 {
        true
    } else if k == 109 {
        false
    } else if k == 110 {
        true
    } else if k == 111 {
        false
    } else if k == 112 {
        false
    } else if k == 113 {
        false
    } else if k == 114 {
        false
    } else if k == 115 {
        false
    } else if k == 116 {
        false
    } else if k == 117 {
        false
    } else if k == 118 {
        false
    } else if k == 119 {
        false
    } else if k == 120 {
        true
    } else if k == 121 {
        false
    } else if k == 122 {
        false
    } else if k == 123 {
        false
    } else if k == 124 {
        false
    } else if k == 125 {
        false
    } else if k == 126 {
        false
    } else if k == 127 {
        false
    } else if k == 128 {
        true
    } else if k == 129 {
        false
    } else if k == 130 {
        true
    } else if k == 131 {
        false
    } else if k == 132 {
        false
    } else if k == 133 {
        true
    } else if k == 134 {
        false
    } else if k == 135 {
        true
    } else if k == 136 {
        false
    } else if k == 137 {
        false
    } else if k == 138 {
        true
    } else if k == 139 {
        false
    } else if k == 140 {
        true
    } else if k == 141 {
        false
    } else if k == 142 {
        false
    } else if k == 143 {
        true
    } else if k == 144 {
        true
    } else if k == 145 {
        false
    } else if k == 146 {
        false
    } else if k == 147 {
        true
    } else if k == 148 {
        true
    } else if k == 149 {
        false
    } else if k == 150 {
        true
    } else if k == 151 {
        true
    } else if k == 152 {
        true
    } else if k == 153 {
        false
    } else if k == 154 {
        false
    } else if k == 155 {
        false
    } else if k == 156 {
        false
    } else if k == 157 {
        false
    } else if k == 158 {
        false
    } else if k == 159 {
        false
    } else if k == 160 {
        false
    } else if k == 161 {
        false
    } else if k == 162 {
        false
    } else if k == 163 {
        false
    } else if k == 164 {
        false
    } else if k == 165 {
        true
    } else if k == 166 {
        true
    } else if k == 167 {
        true
    } else if k == 168 {
        false
    } else if k == 169 {
        false
    } else if k == 170 {
        false
    } else if k == 171 {
        false
    } else if k == 172 {
        false
    } else if k == 173 {
        false
    } else if k == 174 {
        false
    } else if k == 175 {
        false
    } else if k == 176 {
        false
    } else if k == 177 {
        false
    } else if k == 178 {
        false
    } else if k == 179 {
        false
    } else if k == 180 {
        true
    } else if k == 181 {
        true
    } else if k == 182 {
        true
    } else if k == 183 {
        false
    } else if k == 184 {
        false
    } else if k == 185 {
        false
    } else if k == 186 {
        false
    } else if k == 187 {
        false
    } else if k == 188 {
        false
    } else if k == 189 {
        false
    } else if k == 190 {
        false
    } else if k == 191 {
        false
    } else if k == 192 {
        false
    } else if k == 193 {
        false
    } else if k == 194 {
        false
    } else if k == 195 {
        true
    } else if k == 196 {
        false
    } else if k == 197 {
        false
    } else if k == 198 {
        false
    } else if k == 199 {
        false
    } else if k == 200 {
        true
    } else if k == 201 {
        false
    } else if k == 202 {
        true
    } else if k == 203 {
        false
    } else if k == 204 {
        false
    } else if k == 205 {
        false
    } else if k == 206 {
        false
    } else if k == 207 {
        true
    } else if k == 208 {
        false
    } else if k == 209 {
        true
    } else if k == 210 {
        false
    } else if k == 211 {
        true
    } else if k == 212 {
        false
    } else if k == 213 {
        true
    } else if k == 214 {
        false
    } else if k == 215 {
        true
    } else if k == 216 {
        false
    } else if k == 217 {
        true
    } else if k == 218 {
        true
    } else if k == 219 {
        false
    } else if k == 220 {
        false
    } else if k == 221 {
        true
    } else if k == 222 {
        false
    } else if k == 223 {
        false
    } else if k == 224 {
        false
    } else if k == 225 {
        false
    } else if k == 226 {
        false
    } else if k == 227 {
        false
    } else if k == 228 {
        false
    } else if k == 229 {
        false
    } else {
        false
    }
}

/// The entry of the keys before the last of entry `k`.
#[verifier::opaque]
spec fn table_parent(k: int) -> int {
    if k == 0 {
        -1
    } else if k == 1 {
        0
    } else if k == 2 {
        0
    } else if k == 3 {
        0
    } else if k == 4 {
        -1
    } else if k == 5 {
        4
    } else if k == 6 {
        4
    } else if k == 7 {
        6
    } else if k == 8 {
        -1
    } else if k == 9 {
        -1
    } else if k == 10 {
        8
    } else if k == 11 {
        8
    } else if k == 12 {
        11
    } else if k == 13 {
        11
    } else if k == 14 {
        11
    } else if k == 15 {
        11
    } else if k == 16 {
        11
    } else if k == 17 {
        8
    } else if k == 18 {
        17
    } else if k == 19 {
        18
    } else if k == 20 {
        17
    } else if k == 21 {
        20
    } else if k == 22 {
        17
    } else if k == 23 {
        8
    } else if k == 24 {
        8
    } else if k == 25 {
        8
    } else if k == 26 {
        8
    } else if k == 27 {
        8
    } else if k == 28 {
        8
    } else if k == 29 {
        8
    } else if k == 30 {
        8
    } else if k == 31 {
        -1
    } else if k == 32 {
        31
    } else if k == 33 {
        -1
    } else if k == 34 {
        33
    } else if k == 35 {
        33
    } else if k == 36 {
        -1
    } else if k == 37 {
        36
    } else if k == 38 {
        -1
    } else if k == 39 {
        38
    } else if k == 40 {
        38
    } else if k == 41 {
        38
    } else if k == 42 {
        36
    } else if k == 43 {
        42
    } else if k == 44 {
        36
    } else if k == 45 {
        44
    } else if k == 46 {
        36
    } else if k == 47 {
        46
    } else if k == 48 {
        -1
    } else if k == 49 {
        48
    } else if k == 50 {
        48
    } else if k == 51 {
        -1
    } else if k == 52 {
        51
    } else if k == 53 {
        51
    } else if k == 54 {
        -1
    } else if k == 55 {
        54
    } else if k == 56 {
        54
    } else if k == 57 {
        -1
    } else if k == 58 {
        57
    } else if k == 59 {
        58
    } else if k == 60 {
        58
    } else if k == 61 {
        58
    } else if k == 62 {
        58
    } else if k == 63 {
        58
    } else if k == 64 {
        57
    } else if k == 65 {
        64
    } else if k == 66 {
        64
    } else if k == 67 {
        64
    } else if k == 68 {
        64
    } else if k == 69 {
        64
    } else if k == 70 {
        64
    } else if k == 71 {
        64
    } else if k == 72 {
        64
    } else if k == 73 {
        -1
    } else if k == 74 {
        73
    } else if k == 75 {
        73
    } else if k == 76 {
        73
    } else if k == 77 {
        76
    } else if k == 78 {
        -1
    } else if k == 79 {
        78
    } else if k == 80 {
        78
    } else if k == 81 {
        78
    } else if k == 82 {
        78
    } else if k == 83 {
        78
    } else if k == 84 {
        78
    } else if k == 85 {
        -1
    } else if k == 86 {
        85
    } else if k == 87 {
        85
    } else if k == 88 {
        85
    } else if k == 89 {
        85
    } else if k == 90 {
        85
    } else if k == 91 {
        85
    } else if k == 92 {
        85
    } else if k == 93 {
        85
    } else if k == 94 {
        85
    } else if k == 95 {
        85
    } else if k == 96 {
        85
    } else if k == 97 {
        -1
    } else if k == 98 {
        97
    } else if k == 99 {
        97
    } else if k == 100 {
        97
    } else if k == 101 {
        97
    } else if k == 102 {
        97
    } else if k == 103 {
        97
    } else if k == 104 {
        97
    } else if k == 105 {
        -1
    } else if k == 106 {
        -1
    } else if k == 107 {
        -1
    } else if k == 108 {
        -1
    } else if k == 109 {
        108
    } else if k == 110 {
        108
    } else if k == 111 {
        110
    } else if k == 112 {
        108
    } else if k == 113 {
        105
    } else if k == 114 {
        105
    } else if k == 115 {
        105
    } else if k == 116 {
        105
    } else if k == 117 {
        105
    } else if k == 118 {
        105
    } else if k == 119 {
        105
    } else if k == 120 {
        -1
    } else if k == 121 {
        120
    } else if k == 122 {
        120
    } else if k == 123 {
        120
    } else if k == 124 {
        120
    } else if k == 125 {
        120
    } else if k == 126 {
        120
    } else if k == 127 {
        120
    } else if k == 128 {
        -1
    } else if k == 129 {
        128
    } else if k == 130 {
        128
    } else if k == 131 {
        130
    } else if k == 132 {
        -1
    } else if k == 133 {
        -1
    } else if k == 134 {
        133
    } else if k == 135 {
        133
    } else if k == 136 {
        135
    } else if k == 137 {
        133
    } else if k == 138 {
        133
    } else if k == 139 {
        138
    } else if k == 140 {
        -1
    } else if k == 141 {
        140
    } else if k == 142 {
        140
    } else if k == 143 {
        -1
    } else if k == 144 {
        143
    } else if k == 145 {
        143
    } else if k == 146 {
        143
    } else if k == 147 {
        143
    } else if k == 148 {
        143
    } else if k == 149 {
        143
    } else if k == 150 {
        144
    } else if k == 151 {
        144
    } else if k == 152 {
        144
    } else if k == 153 {
        150
    } else if k == 154 {
        150
    } else if k == 155 {
        150
    } else if k == 156 {
        150
    } else if k == 157 {
        151
    } else if k == 158 {
        151
    } else if k == 159 {
        151
    } else if k == 160 {
        151
    } else if k == 161 {
        152
    } else if k == 162 {
        152
    } else if k == 163 {
        152
    } else if k == 164 {
        152
    } else if k == 165 {
        147
    } else if k == 166 {
        147
    } else if k == 167 {
        147
    } else if k == 168 {
        165
    } else if k == 169 {
        165
    } else if k == 170 {
        165
    } else if k == 171 {
        165
    } else if k == 172 {
        166
    } else if k == 173 {
        166
    } else if k == 174 {
        166
    } else if k == 175 {
        166
    } else if k == 176 {
        167
    } else if k == 177 {
        167
    } else if k == 178 {
        167
    } else if k == 179 {
        167
    } else if k == 180 {
        148
    } else if k == 181 {
        148
    } else if k == 182 {
        148
    } else if k == 183 {
        180
    } else if k == 184 {
        180
    } else if k == 185 {
        180
    } else if k == 186 {
        180
    } else if k == 187 {
        181
    } else if k == 188 {
        181
    } else if k == 189 {
        181
    } else if k == 190 {
        181
    } else if k == 191 {
        182
    } else if k == 192 {
        182
    } else if k == 193 {
        182
    } else if k == 194 {
        182
    } else if k == 195 {
        -1
    } else if k == 196 {
        195
    } else if k == 197 {
        195
    } else if k == 198 {
        195
    } else if k == 199 {
        195
    } else if k == 200 {
        195
    } else if k == 201 {
        200
    } else if k == 202 {
        -1
    } else if k == 203 {
        202
    } else if k == 204 {
        202
    } else if k == 205 {
        202
    } else if k == 206 {
        202
    } else if k == 207 {
        202
    } else if k == 208 {
        207
    } else if k == 209 {
        -1
    } else if k == 210 {
        209
    } else if k == 211 {
        209
    } else if k == 212 {
        211
    } else if k == 213 {
        209
    } else if k == 214 {
        213
    } else if k == 215 {
        209
    } else if k == 216 {
        215
    } else if k == 217 {
        -1
    } else if k == 218 {
        217
    } else if k == 219 {
        218
    } else if k == 220 {
        218
    } else if k == 221 {
        217
    } else if k == 222 {
        221
    } else if k == 223 {
        221
    } else if k == 224 {
        221
    } else if k == 225 {
        217
    } else if k == 226 {
        217
    } else if k == 227 {
        217
    } else if k == 228 {
        -1
    } else if k == 229 {
        -1
    } else {
        -1
    }
}

/// The entry at place `k` when the entries are sorted by code.
#[verifier::opaque]
spec fn table_sorted(k: int) -> int {
    if k == 0 {
        38
    } else if k == 1 {
        4
    } else if k == 2 {
        9
    } else if k == 3 {
        36
    } else if k == 4 {
        51
    } else if k == 5 {
        85
    } else if k == 6 {
        105
    } else if k == 7 {
        107
    } else if k == 8 {
        120
    } else if k == 9 {
        195
    } else if k == 10 {
        133
    } else if k == 11 {
        229
    } else if k == 12 {
        209
    } else if k == 13 {
        0
    } else if k == 14 {
        8
    } else if k == 15 {
        31
    } else if k == 16 {
        33
    } else if k == 17 {
        48
    } else if k == 18 {
        54
    } else if k == 19 {
        57
    } else if k == 20 {
        73
    } else if k == 21 {
        78
    } else if k == 22 {
        97
    } else if k == 23 {
        106
    } else if k == 24 {
        108
    } else if k == 25 {
        143
    } else if k == 26 {
        128
    } else if k == 27 {
        132
    } else if k == 28 {
        228
    } else if k == 29 {
        202
    } else if k == 30 {
        217
    } else if k == 31 {
        140
    } else if k == 32 {
        39
    } else if k == 33 {
        40
    } else if k == 34 {
        41
    } else if k == 35 {
        5
    } else if k == 36 {
        6
    } else if k == 37 {
        44
    } else if k == 38 {
        46
    } else if k == 39 {
        37
    } else if k == 40 {
        42
    } else if k == 41 {
        53
    } else if k == 42 {
        52
    } else if k == 43 {
        87
    } else if k == 44 {
        88
    } else if k == 45 {
        89
    } else if k == 46 {
        95
    } else if k == 47 {
        92
    } else if k == 48 {
        86
    } else if k == 49 {
        94
    } else if k == 50 {
        90
    } else if k == 51 {
        96
    } else if k == 52 {
        91
    } else if k == 53 {
        93
    } else if k == 54 {
        116
    } else if k == 55 {
        114
    } else if k == 56 {
        118
    } else if k == 57 {
        119
    } else if k == 58 {
        115
    } else if k == 59 {
        113
    } else if k == 60 {
        117
    } else if k == 61 {
        124
    } else if k == 62 {
        122
    } else if k == 63 {
        126
    } else if k == 64 {
        127
    } else if k == 65 {
        123
    } else if k == 66 {
        121
    } else if k == 67 {
        125
    } else if k == 68 {
        200
    } else if k == 69 {
        197
    } else if k == 70 {
        198
    } else if k == 71 {
        199
    } else if k == 72 {
        196
    } else if k == 73 {
        135
    } else if k == 74 {
        138
    } else if k == 75 {
        134
    } else if k == 76 {
        137
    } else if k == 77 {
        213
    } else if k == 78 {
        215
    } else if k == 79 {
        211
    } else if k == 80 {
        210
    } else if k == 81 {
        1
    } else if k == 82 {
        2
    } else if k == 83 {
        3
    } else if k == 84 {
        28
    } else if k == 85 {
        11
    } else if k == 86 {
        30
    } else if k == 87 {
        10
    } else if k == 88 {
        26
    } else if k == 89 {
        27
    } else if k == 90 {
        17
    } else if k == 91 {
        23
    } else if k == 92 {
        29
    } else if k == 93 {
        24
    } else if k == 94 {
        25
    } else if k == 95 {
        32
    } else if k == 96 {
        35
    } else if k == 97 {
        34
    } else if k == 98 {
        50
    } else if k == 99 {
        49
    } else if k == 100 {
        55
    } else if k == 101 {
        56
    } else if k == 102 {
        58
    } else if k == 103 {
        64
    } else if k == 104 {
        75
    } else if k == 105 {
        76
    } else if k == 106 {
        74
    } else if k == 107 {
        82
    } else if k == 108 {
        83
    } else if k == 109 {
        81
    } else if k == 110 {
        79
    } else if k == 111 {
        84
    } else if k == 112 {
        80
    } else if k == 113 {
        103
    } else if k == 114 {
        102
    } else if k == 115 {
        99
    } else if k == 116 {
        100
    } else if k == 117 {
        101
    } else if k == 118 {
        98
    } else if k == 119 {
        104
    } else if k == 120 {
        110
    } else if k == 121 {
        109
    } else if k == 122 {
        112
    } else if k == 123 {
        146
    } else if k == 124 {
        144
    } else if k == 125 {
        149
    } else if k == 126 {
        145
    } else if k == 127 {
        148
    } else if k == 128 {
        147
    } else if k == 129 {
        130
    } else if k == 130 {
        129
    } else if k == 131 {
        207
    } else if k == 132 {
        204
    } else if k == 133 {
        205
    } else if k == 134 {
        206
    } else if k == 135 {
        203
    } else if k == 136 {
        225
    } else if k == 137 {
        218
    } else if k == 138 {
        221
    } else if k == 139 {
        226
    } else if k == 140 {
        227
    } else if k == 141 {
        142
    } else if k == 142 {
        141
    } else if k == 143 {
        7
    } else if k == 144 {
        45
    } else if k == 145 {
        47
    } else if k == 146 {
        43
    } else if k == 147 {
        201
    } else if k == 148 {
        136
    } else if k == 149 {
        139
    } else if k == 150 {
        214
    } else if k == 151 {
        216
    } else if k == 152 {
        212
    } else if k == 153 {
        13
    } else if k == 154 {
        12
    } else if k == 155 {
        16
    } else if k == 156 {
        14
    } else if k == 157 {
        15
    } else if k == 158 {
        20
    } else if k == 159 {
        18
    } else if k == 160 {
        22
    } else if k == 161 {
        60
    } else if k == 162 {
        62
    } else if k == 163 {
        59
    } else if k == 164 {
        63
    } else if k == 165 {
        61
    } else if k == 166 {
        66
    } else if k == 167 {
        72
    } else if k == 168 {
        70
    } else if k == 169 {
        69
    } else if k == 170 {
        71
    } else if k == 171 {
        65
    } else if k == 172 {
        67
    } else if k == 173 {
        68
    } else if k == 174 {
        77
    } else if k == 175 {
        111
    } else if k == 176 {
        150
    } else if k == 177 {
        151
    } else if k == 178 {
        152
    } else if k == 179 {
        180
    } else if k == 180 {
        181
    } else if k == 181 {
        182
    } else if k == 182 {
        165
    } else if k == 183 {
        166
    } else if k == 184 {
        167
    } else if k == 185 {
        131
    } else if k == 186 {
        208
    } else if k == 187 {
        219
    } else if k == 188 {
        220
    } else if k == 189 {
        223
    } else if k == 190 {
        222
    } else if k == 191 {
        224
    } else if k == 192 {
        21
    } else if k == 193 {
        19
    } else if k == 194 {
        156
    } else if k == 195 {
        155
    } else if k == 196 {
        154
    } else if k == 197 {
        153
    } else if k == 198 {
        160
    } else if k == 199 {
        159
    } else if k == 200 {
        158
    } else if k == 201 {
        157
    } else if k == 202 {
        164
    } else if k == 203 {
        163
    } else if k == 204 {
        162
    } else if k == 205 {
        161
    } else if k == 206 {
        186
    } else if k == 207 {
        185
    } else if k == 208 {
        184
    } else if k == 209 {
        183
    } else if k == 210 {
        190
    } else if k == 211 {
        189
    } else if k == 212 {
        188
    } else if k == 213 {
        187
    } else if k == 214 {
        194
    } else if k == 215 {
        193
    } else if k == 216 {
        192
    } else if k == 217 {
        191
    } else if k == 218 {
        171
    } else if k == 219 {
        170
    } else if k == 220 {
        169
    } else if k == 221 {
        168
    } else if k == 222 {
        175
    } else if k == 223 {
        174
    } else if k == 224 {
        173
    } else if k == 225 {
        172
    } else if k == 226 {
        179
    } else if k == 227 {
        178
    } else if k == 228 {
        177
    } else if k == 229 {
        176
    } else {
        0
    }
}

/// The place of entry `k` when the entries are sorted by code.
#[verifier::opaque]
spec fn table_rank(k: int) -> int {
    if k == 0 {
        13
    } else if k == 1 {
        81
    } else if k == 2 {
        82
    } else if k == 3 {
        83
    } else if k == 4 {
        1
    } else if k == 5 {
        35
    } else if k == 6 {
        36
    } else if k == 7 {
        143
    } else if k == 8 {
        14
    } else if k == 9 {
        2
    } else if k == 10 {
        87
    } else if k == 11 {
        85
    } else if k == 12 {
        154
    } else if k == 13 {
        153
    } else if k == 14 {
        156
    } else if k == 15 {
        157
    } else if k == 16 {
        155
    } else if k == 17 {
        90
    } else if k == 18 {
        159
    } else if k == 19 {
        193
    } else if k == 20 {
        158
    } else if k == 21 {
        192
    } else if k == 22 {
        160
    } else if k == 23 {
        91
    } else if k == 24 {
        93
    } else if k == 25 {
        94
    } else if k == 26 {
        88
    } else if k == 27 {
        89
    } else if k == 28 {
        84
    } else if k == 29 {
        92
    } else if k == 30 {
        86
    } else if k == 31 {
        15
    } else if k == 32 {
        95
    } else if k == 33 {
        16
    } else if k == 34 {
        97
    } else if k == 35 {
        96
    } else if k == 36 {
        3
    } else if k == 37 {
        39
    } else if k == 38 {
        0
    } else if k == 39 {
        32
    } else if k == 40 {
        33
    } else if k == 41 {
        34
    } else if k == 42 {
        40
    } else if k == 43 {
        146
    } else if k == 44 {
        37
    } else if k == 45 {
        144
    } else if k == 46 {
        38
    } else if k == 47 {
        145
    } else if k == 48 {
        17
    } else if k == 49 {
        99
    } else if k == 50 {
        98
    } else if k == 51 {
        4
    } else if k == 52 {
        42
    } else if k == 53 {
        41
    } else if k == 54 {
        18
    } else if k == 55 {
        100
    } else if k == 56 {
        101
    } else if k == 57 {
        19
    } else if k == 58 {
        102
    } else if k == 59 {
        163
    } else if k == 60 {
        161
    } else if k == 61 {
        165
    } else if k == 62 {
        162
    } else if k == 63 {
        164
    } else if k == 64 {
        103
    } else if k == 65 {
        171
    } else if k == 66 {
        166
    } else if k == 67 {
        172
    } else if k == 68 {
        173
    } else if k == 69 {
        169
    } else if k == 70 {
        168
    } else if k == 71 {
        170
    } else if k == 72 {
        167
    } else if k == 73 {
        20
    } else if k == 74 {
        106
    } else if k == 75 {
        104
    } else if k == 76 {
        105
    } else if k == 77 {
        174
    } else if k == 78 {
        21
    } else if k == 79 {
        110
    } else if k == 80 {
        112
    } else if k == 81 {
        109
    } else if k == 82 {
        107
    } else if k == 83 {
        108
    } else if k == 84 {
        111
    } else if k == 85 {
        5
    } else if k == 86 {
        48
    } else if k == 87 {
        43
    } else if k == 88 {
        44
    } else if k == 89 {
        45
    } else if k == 90 {
        50
    } else if k == 91 {
        52
    } else if k == 92 {
        47
    } else if k == 93 {
        53
    } else if k == 94 {
        49
    } else if k == 95 {
        46
    } else if k == 96 {
        51
    } else if k == 97 {
        22
    } else if k == 98 {
        118
    } else if k == 99 {
        115
    } else if k == 100 {
        116
    } else if k == 101 {
        117
    } else if k == 102 {
        114
    } else if k == 103 {
        113
    } else if k == 104 {
        119
    } else if k == 105 {
        6
    } else if k == 106 {
        23
    } else if k == 107 {
        7
    } else if k == 108 {
        24
    } else if k == 109 {
        121
    } else if k == 110 {
        120
    } else if k == 111 {
        175
    } else if k == 112 {
        122
    } else if k == 113 {
        59
    } else if k == 114 {
        55
    } else if k == 115 {
        58
    } else if k == 116 {
        54
    } else if k == 117 {
        60
    } else if k == 118 {
        56
    } else if k == 119 {
        57
    } else if k == 120 {
        8
    } else if k == 121 {
        66
    } else if k == 122 {
        62
    } else if k == 123 {
        65
    } else if k == 124 {
        61
    } else if k == 125 {
        67
    } else if k == 126 {
        63
    } else if k == 127 {
        64
    } else if k == 128 {
        26
    } else if k == 129 {
        130
    } else if k == 130 {
        129
    } else if k == 131 {
        185
    } else if k == 132 {
        27
    } else if k == 133 {
        10
    } else if k == 134 {
        75
    } else if k == 135 {
        73
    } else if k == 136 {
        148
    } else if k == 137 {
        76
    } else if k == 138 {
        74
    } else if k == 139 {
        149
    } else if k == 140 {
        31
    } else if k == 141 {
        142
    } else if k == 142 {
        141
    } else if k == 143 {
        25
    } else if k == 144 {
        124
    } else if k == 145 {
        126
    } else if k == 146 {
        123
    } else if k == 147 {
        128
    } else if k == 148 {
        127
    } else if k == 149 {
        125
    } else if k == 150 {
        176
    } else if k == 151 {
        177
    } else if k == 152 {
        178
    } else if k == 153 {
        197
    } else if k == 154 {
        196
    } else if k == 155 {
        195
    } else if k == 156 {
        194
    } else if k == 157 {
        201
    } else if k == 158 {
        200
    } else if k == 159 {
        199
    } else if k == 160 {
        198
    } else if k == 161 {
        205
    } else if k == 162 {
        204
    } else if k == 163 {
        203
    } else if k == 164 {
        202
    } else if k == 165 {
        182
    } else if k == 166 {
        183
    } else if k == 167 {
        184
    } else if k == 168 {
        221
    } else if k == 169 {
        220
    } else if k == 170 {
        219
    } else if k == 171 {
        218
    } else if k == 172 {
        225
    } else if k == 173 {
        224
    } else if k == 174 {
        223
    } else if k == 175 {
        222
    } else if k == 176 {
        229
    } else if k == 177 {
        228
    } else if k == 178 {
        227
    } else if k == 179 {
        226
    } else if k == 180 {
        179
    } else if k == 181 {
        180
    } else if k == 182 {
        181
    } else if k == 183 {
        209
    } else if k == 184 {
        208
    } else if k == 185 {
        207
    } else if k == 186 {
        206
    } else if k == 187 {
        213
    } else if k == 188 {
        212
    } else if k == 189 {
        211
    } else if k == 190 {
        210
    } else if k == 191 {
        217
    } else if k == 192 {
        216
    } else if k == 193 {
        215
    } else if k == 194 {
        214
    } else if k == 195 {
        9
    } else if k == 196 {
        72
    } else if k == 197 {
        69
    } else if k == 198 {
        70
    } else if k == 199 {
        71
    } else if k == 200 {
        68
    } else if k == 201 {
        147
    } else if k == 202 {
        29
    } else if k == 203 {
        135
    } else if k == 204 {
        132
    } else if k == 205 {
        133
    } else if k == 206 {
        134
    } else if k == 207 {
        131
    } else if k == 208 {
        186
    } else if k == 209 {
        12
    } else if k == 210 {
        80
    } else if k == 211 {
        79
    } else if k == 212 {
        152
    } else if k == 213 {
        77
    } else if k == 214 {
        150
    } else if k == 215 {
        78
    } else if k == 216 {
        151
    } else if k == 217 {
        30
    } else if k == 218 {
        137
    } else if k == 219 {
        187
    } else if k == 220 {
        188
    } else if k == 221 {
        138
    } else if k == 222 {
        190
    } else if k == 223 {
        189
    } else if k == 224 {
        191
    } else if k == 225 {
        136
    } else if k == 226 {
        139
    } else if k == 227 {
        140
    } else if k == 228 {
        28
    } else if k == 229 {
        11
    } else {
        0
    }
}

/// The entries of [`table_part_1`] stand at 0 to 19 of the table.
#[verifier::spinoff_prover]
#[verifier::rlimit(50)]
proof fn lemma_part_1_index()
    ensures
        forall|i: int| 0 <= i < 20 ==> #[trigger] binding_table()[0 + i] == table_part_1()[i],
{
}

/// What the table data says of the entries of [`table_part_1`].
#[verifier::spinoff_prover]
#[verifier::rlimit(50)]
proof fn lemma_part_1_data()
    ensures
        forall|i: int| 0 <= i < 20 ==> #[trigger] entry_fits_data(table_part_1()[i], 0 + i),
{
    assert(entry_fits_data(table_part_1()[0], 0)) by {
        reveal(entry_fits_data);
        reveal(table_len);
        reveal(table_code);
        reveal(table_last);
        reveal(table_group);
        reveal_with_fuel(key_code, 5);
    }
    assert(entry_fits_data(table_part_1()[1], 1)) by {
        reveal(entry_fits_data);
        reveal(table_len);
        reveal(table_code);
        reveal(table_last);
        reveal(table_group);
        reveal_with_fuel(key_code, 5);
    }
    assert(entry_fits_data(table_part_1()[2], 2)) by {
        reveal(entry_fits_data);
        reveal(table_len);
        reveal(table_code);
        reveal(table_last);
        reveal(table_group);
        reveal_with_fuel(key_code, 5);
    }
    assert(entry_fits_data(table_part_1()[3], 3)) by {
        reveal(entry_fits_data);
        reveal(table_len);
        reveal(table_code);
        reveal(table_last);
        reveal(table_group);
        reveal_with_fuel(key_code, 5);
    }
    assert(entry_fits_data(table_part_1()[4], 4)) by {
        reveal(entry_fits_data);
        reveal(table_len);
        reveal(table_code);
        reveal(table_last);
        reveal(table_group);
        reveal_with_fuel(key_code, 5);
    }
    assert(entry_fits_data(table_part_1()[5], 5)) by {
        reveal(entry_fits_data);
        reveal(table_len);
        reveal(table_code);
        reveal(table_last);
        reveal(table_group);
        reveal_with_fuel(key_code, 5);
    }
    assert(entry_fits_data(table_part_1()[6], 6)) by {
        reveal(entry_fits_data);
        reveal(table_len);
        reveal(table_code);
        reveal(table_last);
        reveal(table_group);
        reveal_with_fuel(key_code, 5);
    }
    assert(entry_fits_data(table_part_1()[7], 7)) by {
        reveal(entry_fits_data);
        reveal(table_len);
        reveal(table_code);
        reveal(table_last);
        reveal(table_group);
        reveal_with_fuel(key_code, 5);
    }
    assert(entry_fits_data(table_part_1()[8], 8)) by {
        reveal(entry_fits_data);
        reveal(table_len);
        reveal(table_code);
        reveal(table_last);
        reveal(table_group);
        reveal_with_fuel(key_code, 5);
    }
    assert(entry_fits_data(table_part_1()[9], 9)) by {
        reveal(entry_fits_data);
        reveal(table_len);
        reveal(table_code);
        reveal(table_last);
        reveal(table_group);
        reveal_with_fuel(key_code, 5);
    }
    assert(entry_fits_data(table_part_1()[10], 10)) by {
        reveal(entry_fits_data);
        reveal(table_len);
        reveal(table_code);
        reveal(table_last);
        reveal(table_group);
        reveal_with_fuel(key_code, 5);
    }
    assert(entry_fits_data(table_part_1()[11], 11)) by {
        reveal(entry_fits_data);
        reveal(table_len);
        reveal(table_code);
        reveal(table_last);
        reveal(table_group);
        reveal_with_fuel(key_code, 5);
    }
    assert(entry_fits_data(table_part_1()[12], 12)) by {
        reveal(entry_fits_data);
        reveal(table_len);
        reveal(table_code);
        reveal(table_last);
        reveal(table_group);
        reveal_with_fuel(key_code, 5);
    }
    assert(entry_fits_data(table_part_1()[13], 13)) by {
        reveal(entry_fits_data);
        reveal(table_len);
        reveal(table_code);
        reveal(table_last);
        reveal(table_group);
        reveal_with_fuel(key_code, 5);
    }
    assert(entry_fits_data(table_part_1()[14], 14)) by {
        reveal(entry_fits_data);
        reveal(table_len);
        reveal(table_code);
        reveal(table_last);
        reveal(table_group);
        reveal_with_fuel(key_code, 5);
    }
    assert(entry_fits_data(table_part_1()[15], 15)) by {
        reveal(entry_fits_data);
        reveal(table_len);
        reveal(table_code);
        reveal(table_last);
        reveal(table_group);
        reveal_with_fuel(key_code, 5);
    }
    assert(entry_fits_data(table_part_1()[16], 16)) by {
        reveal(entry_fits_data);
        reveal(table_len);
        reveal(table_code);
        reveal(table_last);
        reveal(table_group);
        reveal_with_fuel(key_code, 5);
    }
    assert(entry_fits_data(table_part_1()[17], 17)) by {
        reveal(entry_fits_data);
        reveal(table_len);
        reveal(table_code);
        reveal(table_last);
        reveal(table_group);
        reveal_with_fuel(key_code, 5);
    }
    assert(entry_fits_data(table_part_1()[18], 18)) by {
        reveal(entry_fits_data);
        reveal(table_len);
        reveal(table_code);
        reveal(table_last);
        reveal(table_group);
        reveal_with_fuel(key_code, 5);
    }
    assert(entry_fits_data(table_part_1()[19], 19)) by {
        reveal(entry_fits_data);
        reveal(table_len);
        reveal(table_code);
        reveal(table_last);
        reveal(table_group);
        reveal_with_fuel(key_code, 5);
    }
}

/// The entries of the table from 0 to 19 fit the table data.
proof fn lemma_part_1_matches()
    ensures
        forall|k: int| 0 <= k < 20 ==> #[trigger] entry_matches(binding_table(), k),
{
    lemma_part_1_index();
    lemma_part_1_data();
    assert forall|k: int| 0 <= k < 20 implies #[trigger] entry_matches(binding_table(), k) by {
        reveal(entry_matches);
        assert(binding_table()[0 + (k - 0)] == table_part_1()[k - 0]);
        assert(entry_fits_data(table_part_1()[k - 0], 0 + (k - 0)));
    }
}

/// The entries of [`table_part_2`] stand at 20 to 39 of the table.
#[verifier::spinoff_prover]
#[verifier::rlimit(50)]
proof fn lemma_part_2_index()
    ensures
        forall|i: int| 0 <= i < 20 ==> #[trigger] binding_table()[20 + i] == table_part_2()[i],
{
}

/// What the table data says of the entries of [`table_part_2`].
#[verifier::spinoff_prover]
#[verifier::rlimit(50)]
proof fn lemma_part_2_data()
    ensures
        forall|i: int| 0 <= i < 20 ==> #[trigger] entry_fits_data(table_part_2()[i], 20 + i),
{
    assert(entry_fits_data(table_part_2()[0], 20)) by {
        reveal(entry_fits_data);
        reveal(table_len);
        reveal(table_code);
        reveal(table_last);
        reveal(table_group);
        reveal_with_fuel(key_code, 5);
    }
    assert(entry_fits_data(table_part_2()[1], 21)) by {
        reveal(entry_fits_data);
        reveal(table_len);
        reveal(table_code);
        reveal(table_last);
        reveal(table_group);
        reveal_with_fuel(key_code, 5);
    }
    assert(entry_fits_data(table_part_2()[2], 22)) by {
        reveal(entry_fits_data);
        reveal(table_len);
        reveal(table_code);
        reveal(table_last);
        reveal(table_group);
        reveal_with_fuel(key_code, 5);
    }
    assert(entry_fits_data(table_part_2()[3], 23)) by {
        reveal(entry_fits_data);
        reveal(table_len);
        reveal(table_code);
        reveal(table_last);
        reveal(table_group);
        reveal_with_fuel(key_code, 5);
    }
    assert(entry_fits_data(table_part_2()[4], 24)) by {
        reveal(entry_fits_data);
        reveal(table_len);
        reveal(table_code);
        reveal(table_last);
        reveal(table_group);
        reveal_with_fuel(key_code, 5);
    }
    assert(entry_fits_data(table_part_2()[5], 25)) by {
        reveal(entry_fits_data);
        reveal(table_len);
        reveal(table_code);
        reveal(table_last);
        reveal(table_group);
        reveal_with_fuel(key_code, 5);
    }
    assert(entry_fits_data(table_part_2()[6], 26)) by {
        reveal(entry_fits_data);
        reveal(table_len);
        reveal(table_code);
        reveal(table_last);
        reveal(table_group);
        reveal_with_fuel(key_code, 5);
    }
    assert(entry_fits_data(table_part_2()[7], 27)) by {
        reveal(entry_fits_data);
        reveal(table_len);
        reveal(table_code);
        reveal(table_last);
        reveal(table_group);
        reveal_with_fuel(key_code, 5);
    }
    assert(entry_fits_data(table_part_2()[8], 28)) by {
        reveal(entry_fits_data);
        reveal(table_len);
        reveal(table_code);
        reveal(table_last);
        reveal(table_group);
        reveal_with_fuel(key_code, 5);
    }
    assert(entry_fits_data(table_part_2()[9], 29)) by {
        reveal(entry_fits_data);
        reveal(table_len);
        reveal(table_code);
        reveal(table_last);
        reveal(table_group);
        reveal_with_fuel(key_code, 5);
    }
    assert(entry_fits_data(table_part_2()[10], 30)) by {
        reveal(entry_fits_data);
        reveal(table_len);
        reveal(table_code);
        reveal(table_last);
        reveal(table_group);
        reveal_with_fuel(key_code, 5);
    }
    assert(entry_fits_data(table_part_2()[11], 31)) by {
        reveal(entry_fits_data);
        reveal(table_len);
        reveal(table_code);
        reveal(table_last);
        reveal(table_group);
        reveal_with_fuel(key_code, 5);
    }
    assert(entry_fits_data(table_part_2()[12], 32)) by {
        reveal(entry_fits_data);
        reveal(table_len);
        reveal(table_code);
        reveal(table_last);
        reveal(table_group);
        reveal_with_fuel(key_code, 5);
    }
    assert(entry_fits_data(table_part_2()[13], 33)) by {
        reveal(entry_fits_data);
        reveal(table_len);
        reveal(table_code);
        reveal(table_last);
        reveal(table_group);
        reveal_with_fuel(key_code, 5);
    }
    assert(entry_fits_data(table_part_2()[14], 34)) by {
        reveal(entry_fits_data);
        reveal(table_len);
        reveal(table_code);
        reveal(table_last);
        reveal(table_group);
        reveal_with_fuel(key_code, 5);
    }
    assert(entry_fits_data(table_part_2()[15], 35)) by {
        reveal(entry_fits_data);
        reveal(table_len);
        reveal(table_code);
        reveal(table_last);
        reveal(table_group);
        reveal_with_fuel(key_code, 5);
    }
    assert(entry_fits_data(table_part_2()[16], 36)) by {
        reveal(entry_fits_data);
        reveal(table_len);
        reveal(table_code);
        reveal(table_last);
        reveal(table_group);
        reveal_with_fuel(key_code, 5);
    }
    assert(entry_fits_data(table_part_2()[17], 37)) by {
        reveal(entry_fits_data);
        reveal(table_len);
        reveal(table_code);
        reveal(table_last);
        reveal(table_group);
        reveal_with_fuel(key_code, 5);
    }
    assert(entry_fits_data(table_part_2()[18], 38)) by {
        reveal(entry_fits_data);
        reveal(table_len);
        reveal(table_code);
        reveal(table_last);
        reveal(table_group);
        reveal_with_fuel(key_code, 5);
    }
    assert(entry_fits_data(table_part_2()[19], 39)) by {
        reveal(entry_fits_data);
        reveal(table_len);
        reveal(table_code);
        reveal(table_last);
        reveal(table_group);
        reveal_with_fuel(key_code, 5);
    }
}

/// The entries of the table from 20 to 39 fit the table data.
proof fn lemma_part_2_matches()
    ensures
        forall|k: int| 20 <= k < 40 ==> #[trigger] entry_matches(binding_table(), k),
{
    lemma_part_2_index();
    lemma_part_2_data();
    assert forall|k: int| 20 <= k < 40 implies #[trigger] entry_matches(binding_table(), k) by {
        reveal(entry_matches);
        assert(binding_table()[20 + (k - 20)] == table_part_2()[k - 20]);
        assert(entry_fits_data(table_part_2()[k - 20], 20 + (k - 20)));
    }
}

/// The entries of [`table_part_3`] stand at 40 to 59 of the table.
#[verifier::spinoff_prover]
#[verifier::rlimit(50)]
proof fn lemma_part_3_index()
    ensures
        forall|i: int| 0 <= i < 20 ==> #[trigger] binding_table()[40 + i] == table_part_3()[i],
{
}

/// What the table data says of the entries of [`table_part_3`].
#[verifier::spinoff_prover]
#[verifier::rlimit(50)]
proof fn lemma_part_3_data()
    ensures
        forall|i: int| 0 <= i < 20 ==> #[trigger] entry_fits_data(table_part_3()[i], 40 + i),
{
    assert(entry_fits_data(table_part_3()[0], 40)) by {
        reveal(entry_fits_data);
        reveal(table_len);
        reveal(table_code);
        reveal(table_last);
        reveal(table_group);
        reveal_with_fuel(key_code, 5);
    }
    assert(entry_fits_data(table_part_3()[1], 41)) by {
        reveal(entry_fits_data);
        reveal(table_len);
        reveal(table_code);
        reveal(table_last);
        reveal(table_group);
        reveal_with_fuel(key_code, 5);
    }
    assert(entry_fits_data(table_part_3()[2], 42)) by {
        reveal(entry_fits_data);
        reveal(table_len);
        reveal(table_code);
        reveal(table_last);
        reveal(table_group);
        reveal_with_fuel(key_code, 5);
    }
    assert(entry_fits_data(table_part_3()[3], 43)) by {
        reveal(entry_fits_data);
        reveal(table_len);
        reveal(table_code);
        reveal(table_last);
        reveal(table_group);
        reveal_with_fuel(key_code, 5);
    }
    assert(entry_fits_data(table_part_3()[4], 44)) by {
        reveal(entry_fits_data);
        reveal(table_len);
        reveal(table_code);
        reveal(table_last);
        reveal(table_group);
        reveal_with_fuel(key_code, 5);
    }
    assert(entry_fits_data(table_part_3()[5], 45)) by {
        reveal(entry_fits_data);
        reveal(table_len);
        reveal(table_code);
        reveal(table_last);
        reveal(table_group);
        reveal_with_fuel(key_code, 5);
    }
    assert(entry_fits_data(table_part_3()[6], 46)) by {
        reveal(entry_fits_data);
        reveal(table_len);
        reveal(table_code);
        reveal(table_last);
        reveal(table_group);
        reveal_with_fuel(key_code, 5);
    }
    assert(entry_fits_data(table_part_3()[7], 47)) by {
        reveal(entry_fits_data);
        reveal(table_len);
        reveal(table_code);
        reveal(table_last);
        reveal(table_group);
        reveal_with_fuel(key_code, 5);
    }
    assert(entry_fits_data(table_part_3()[8], 48)) by {
        reveal(entry_fits_data);
        reveal(table_len);
        reveal(table_code);
        reveal(table_last);
        reveal(table_group);
        reveal_with_fuel(key_code, 5);
    }
    assert(entry_fits_data(table_part_3()[9], 49)) by {
        reveal(entry_fits_data);
        reveal(table_len);
        reveal(table_code);
        reveal(table_last);
        reveal(table_group);
        reveal_with_fuel(key_code, 5);
    }
    assert(entry_fits_data(table_part_3()[10], 50)) by {
        reveal(entry_fits_data);
        reveal(table_len);
        reveal(table_code);
        reveal(table_last);
        reveal(table_group);
        reveal_with_fuel(key_code, 5);
    }
    assert(entry_fits_data(table_part_3()[11], 51)) by {
        reveal(entry_fits_data);
        reveal(table_len);
        reveal(table_code);
        reveal(table_last);
        reveal(table_group);
        reveal_with_fuel(key_code, 5);
    }
    assert(entry_fits_data(table_part_3()[12], 52)) by {
        reveal(entry_fits_data);
        reveal(table_len);
        reveal(table_code);
        reveal(table_last);
        reveal(table_group);
        reveal_with_fuel(key_code, 5);
    }
    assert(entry_fits_data(table_part_3()[13], 53)) by {
        reveal(entry_fits_data);
        reveal(table_len);
        reveal(table_code);
        reveal(table_last);
        reveal(table_group);
        reveal_with_fuel(key_code, 5);
    }
    assert(entry_fits_data(table_part_3()[14], 54)) by {
        reveal(entry_fits_data);
        reveal(table_len);
        reveal(table_code);
        reveal(table_last);
        reveal(table_group);
        reveal_with_fuel(key_code, 5);
    }
    assert(entry_fits_data(table_part_3()[15], 55)) by {
        reveal(entry_fits_data);
        reveal(table_len);
        reveal(table_code);
        reveal(table_last);
        reveal(table_group);
        reveal_with_fuel(key_code, 5);
    }
    assert(entry_fits_data(table_part_3()[16], 56)) by {
        reveal(entry_fits_data);
        reveal(table_len);
        reveal(table_code);
        reveal(table_last);
        reveal(table_group);
        reveal_with_fuel(key_code, 5);
    }
    assert(entry_fits_data(table_part_3()[17], 57)) by {
        reveal(entry_fits_data);
        reveal(table_len);
        reveal(table_code);
        reveal(table_last);
        reveal(table_group);
        reveal_with_fuel(key_code, 5);
    }
    assert(entry_fits_data(table_part_3()[18], 58)) by {
        reveal(entry_fits_data);
        reveal(table_len);
        reveal(table_code);
        reveal(table_last);
        reveal(table_group);
        reveal_with_fuel(key_code, 5);
    }
    assert(entry_fits_data(table_part_3()[19], 59)) by {
        reveal(entry_fits_data);
        reveal(table_len);
        reveal(table_code);
        reveal(table_last);
        reveal(table_group);
        reveal_with_fuel(key_code, 5);
    }
}

/// The entries of the table from 40 to 59 fit the table data.
proof fn lemma_part_3_matches()
    ensures
        forall|k: int| 40 <= k < 60 ==> #[trigger] entry_matches(binding_table(), k),
{
    lemma_part_3_index();
    lemma_part_3_data();
    assert forall|k: int| 40 <= k < 60 implies #[trigger] entry_matches(binding_table(), k) by {
        reveal(entry_matches);
        assert(binding_table()[40 + (k - 40)] == table_part_3()[k - 40]);
        assert(entry_fits_data(table_part_3()[k - 40], 40 + (k - 40)));
    }
}

/// The entries of [`table_part_4`] stand at 60 to 79 of the table.
#[verifier::spinoff_prover]
#[verifier::rlimit(50)]
proof fn lemma_part_4_index()
    ensures
        forall|i: int| 0 <= i < 20 ==> #[trigger] binding_table()[60 + i] == table_part_4()[i],
{
}

/// What the table data says of the entries of [`table_part_4`].
#[verifier::spinoff_prover]
#[verifier::rlimit(50)]
proof fn lemma_part_4_data()
    ensures
        forall|i: int| 0 <= i < 20 ==> #[trigger] entry_fits_data(table_part_4()[i], 60 + i),
{
    assert(entry_fits_data(table_part_4()[0], 60)) by {
        reveal(entry_fits_data);
        reveal(table_len);
        reveal(table_code);
        reveal(table_last);
        reveal(table_group);
        reveal_with_fuel(key_code, 5);
    }
    assert(entry_fits_data(table_part_4()[1], 61)) by {
        reveal(entry_fits_data);
        reveal(table_len);
        reveal(table_code);
        reveal(table_last);
        reveal(table_group);
        reveal_with_fuel(key_code, 5);
    }
    assert(entry_fits_data(table_part_4()[2], 62)) by {
        reveal(entry_fits_data);
        reveal(table_len);
        reveal(table_code);
        reveal(table_last);
        reveal(table_group);
        reveal_with_fuel(key_code, 5);
    }
    assert(entry_fits_data(table_part_4()[3], 63)) by {
        reveal(entry_fits_data);
        reveal(table_len);
        reveal(table_code);
        reveal(table_last);
        reveal(table_group);
        reveal_with_fuel(key_code, 5);
    }
    assert(entry_fits_data(table_part_4()[4], 64)) by {
        reveal(entry_fits_data);
        reveal(table_len);
        reveal(table_code);
        reveal(table_last);
        reveal(table_group);
        reveal_with_fuel(key_code, 5);
    }
    assert(entry_fits_data(table_part_4()[5], 65)) by {
        reveal(entry_fits_data);
        reveal(table_len);
        reveal(table_code);
        reveal(table_last);
        reveal(table_group);
        reveal_with_fuel(key_code, 5);
    }
    assert(entry_fits_data(table_part_4()[6], 66)) by {
        reveal(entry_fits_data);
        reveal(table_len);
        reveal(table_code);
        reveal(table_last);
        reveal(table_group);
        reveal_with_fuel(key_code, 5);
    }
    assert(entry_fits_data(table_part_4()[7], 67)) by {
        reveal(entry_fits_data);
        reveal(table_len);
        reveal(table_code);
        reveal(table_last);
        reveal(table_group);
        reveal_with_fuel(key_code, 5);
    }
    assert(entry_fits_data(table_part_4()[8], 68)) by {
        reveal(entry_fits_data);
        reveal(table_len);
        reveal(table_code);
        reveal(table_last);
        reveal(table_group);
        reveal_with_fuel(key_code, 5);
    }
    assert(entry_fits_data(table_part_4()[9], 69)) by {
        reveal(entry_fits_data);
        reveal(table_len);
        reveal(table_code);
        reveal(table_last);
        reveal(table_group);
        reveal_with_fuel(key_code, 5);
    }
    assert(entry_fits_data(table_part_4()[10], 70)) by {
        reveal(entry_fits_data);
        reveal(table_len);
        reveal(table_code);
        reveal(table_last);
        reveal(table_group);
        reveal_with_fuel(key_code, 5);
    }
    assert(entry_fits_data(table_part_4()[11], 71)) by {
        reveal(entry_fits_data);
        reveal(table_len);
        reveal(table_code);
        reveal(table_last);
        reveal(table_group);
        reveal_with_fuel(key_code, 5);
    }
    assert(entry_fits_data(table_part_4()[12], 72)) by {
        reveal(entry_fits_data);
        reveal(table_len);
        reveal(table_code);
        reveal(table_last);
        reveal(table_group);
        reveal_with_fuel(key_code, 5);
    }
    assert(entry_fits_data(table_part_4()[13], 73)) by {
        reveal(entry_fits_data);
        reveal(table_len);
        reveal(table_code);
        reveal(table_last);
        reveal(table_group);
        reveal_with_fuel(key_code, 5);
    }
    assert(entry_fits_data(table_part_4()[14], 74)) by {
        reveal(entry_fits_data);
        reveal(table_len);
        reveal(table_code);
        reveal(table_last);
        reveal(table_group);
        reveal_with_fuel(key_code, 5);
    }
    assert(entry_fits_data(table_part_4()[15], 75)) by {
        reveal(entry_fits_data);
        reveal(table_len);
        reveal(table_code);
        reveal(table_last);
        reveal(table_group);
        reveal_with_fuel(key_code, 5);
    }
    assert(entry_fits_data(table_part_4()[16], 76)) by {
        reveal(entry_fits_data);
        reveal(table_len);
        reveal(table_code);
        reveal(table_last);
        reveal(table_group);
        reveal_with_fuel(key_code, 5);
    }
    assert(entry_fits_data(table_part_4()[17], 77)) by {
        reveal(entry_fits_data);
        reveal(table_len);
        reveal(table_code);
        reveal(table_last);
        reveal(table_group);
        reveal_with_fuel(key_code, 5);
    }
    assert(entry_fits_data(table_part_4()[18], 78)) by {
        reveal(entry_fits_data);
        reveal(table_len);
        reveal(table_code);
        reveal(table_last);
        reveal(table_group);
        reveal_with_fuel(key_code, 5);
    }
    assert(entry_fits_data(table_part_4()[19], 79)) by {
        reveal(entry_fits_data);
        reveal(table_len);
        reveal(table_code);
        reveal(table_last);
        reveal(table_group);
        reveal_with_fuel(key_code, 5);
    }
}

/// The entries of the table from 60 to 79 fit the table data.
proof fn lemma_part_4_matches()
    ensures
        forall|k: int| 60 <= k < 80 ==> #[trigger] entry_matches(binding_table(), k),
{
    lemma_part_4_index();
    lemma_part_4_data();
    assert forall|k: int| 60 <= k < 80 implies #[trigger] entry_matches(binding_table(), k) by {
        reveal(entry_matches);
        assert(binding_table()[60 + (k - 60)] == table_part_4()[k - 60]);
        assert(entry_fits_data(table_part_4()[k - 60], 60 + (k - 60)));
    }
}

/// The entries of [`table_part_5`] stand at 80 to 99 of the table.
#[verifier::spinoff_prover]
#[verifier::rlimit(50)]
proof fn lemma_part_5_index()
    ensures
        forall|i: int| 0 <= i < 20 ==> #[trigger] binding_table()[80 + i] == table_part_5()[i],
{
}

/// What the table data says of the entries of [`table_part_5`].
#[verifier::spinoff_prover]
#[verifier::rlimit(50)]
proof fn lemma_part_5_data()
    ensures
        forall|i: int| 0 <= i < 20 ==> #[trigger] entry_fits_data(table_part_5()[i], 80 + i),
{
    assert(entry_fits_data(table_part_5()[0], 80)) by {
        reveal(entry_fits_data);
        reveal(table_len);
        reveal(table_code);
        reveal(table_last);
        reveal(table_group);
        reveal_with_fuel(key_code, 5);
    }
    assert(entry_fits_data(table_part_5()[1], 81)) by {
        reveal(entry_fits_data);
        reveal(table_len);
        reveal(table_code);
        reveal(table_last);
        reveal(table_group);
        reveal_with_fuel(key_code, 5);
    }
    assert(entry_fits_data(table_part_5()[2], 82)) by {
        reveal(entry_fits_data);
        reveal(table_len);
        reveal(table_code);
        reveal(table_last);
        reveal(table_group);
        reveal_with_fuel(key_code, 5);
    }
    assert(entry_fits_data(table_part_5()[3], 83)) by {
        reveal(entry_fits_data);
        reveal(table_len);
        reveal(table_code);
        reveal(table_last);
        reveal(table_group);
        reveal_with_fuel(key_code, 5);
    }
    assert(entry_fits_data(table_part_5()[4], 84)) by {
        reveal(entry_fits_data);
        reveal(table_len);
        reveal(table_code);
        reveal(table_last);
        reveal(table_group);
        reveal_with_fuel(key_code, 5);
    }
    assert(entry_fits_data(table_part_5()[5], 85)) by {
        reveal(entry_fits_data);
        reveal(table_len);
        reveal(table_code);
        reveal(table_last);
        reveal(table_group);
        reveal_with_fuel(key_code, 5);
    }
    assert(entry_fits_data(table_part_5()[6], 86)) by {
        reveal(entry_fits_data);
        reveal(table_len);
        reveal(table_code);
        reveal(table_last);
        reveal(table_group);
        reveal_with_fuel(key_code, 5);
    }
    assert(entry_fits_data(table_part_5()[7], 87)) by {
        reveal(entry_fits_data);
        reveal(table_len);
        reveal(table_code);
        reveal(table_last);
        reveal(table_group);
        reveal_with_fuel(key_code, 5);
    }
    assert(entry_fits_data(table_part_5()[8], 88)) by {
        reveal(entry_fits_data);
        reveal(table_len);
        reveal(table_code);
        reveal(table_last);
        reveal(table_group);
        reveal_with_fuel(key_code, 5);
    }
    assert(entry_fits_data(table_part_5()[9], 89)) by {
        reveal(entry_fits_data);
        reveal(table_len);
        reveal(table_code);
        reveal(table_last);
        reveal(table_group);
        reveal_with_fuel(key_code, 5);
    }
    assert(entry_fits_data(table_part_5()[10], 90)) by {
        reveal(entry_fits_data);
        reveal(table_len);
        reveal(table_code);
        reveal(table_last);
        reveal(table_group);
        reveal_with_fuel(key_code, 5);
    }
    assert(entry_fits_data(table_part_5()[11], 91)) by {
        reveal(entry_fits_data);
        reveal(table_len);
        reveal(table_code);
        reveal(table_last);
        reveal(table_group);
        reveal_with_fuel(key_code, 5);
    }
    assert(entry_fits_data(table_part_5()[12], 92)) by {
        reveal(entry_fits_data);
        reveal(table_len);
        reveal(table_code);
        reveal(table_last);
        reveal(table_group);
        reveal_with_fuel(key_code, 5);
    }
    assert(entry_fits_data(table_part_5()[13], 93)) by {
        reveal(entry_fits_data);
        reveal(table_len);
        reveal(table_code);
        reveal(table_last);
        reveal(table_group);
        reveal_with_fuel(key_code, 5);
    }
    assert(entry_fits_data(table_part_5()[14], 94)) by {
        reveal(entry_fits_data);
        reveal(table_len);
        reveal(table_code);
        reveal(table_last);
        reveal(table_group);
        reveal_with_fuel(key_code, 5);
    }
    assert(entry_fits_data(table_part_5()[15], 95)) by {
        reveal(entry_fits_data);
        reveal(table_len);
        reveal(table_code);
        reveal(table_last);
        reveal(table_group);
        reveal_with_fuel(key_code, 5);
    }
    assert(entry_fits_data(table_part_5()[16], 96)) by {
        reveal(entry_fits_data);
        reveal(table_len);
        reveal(table_code);
        reveal(table_last);
        reveal(table_group);
        reveal_with_fuel(key_code, 5);
    }
    assert(entry_fits_data(table_part_5()[17], 97)) by {
        reveal(entry_fits_data);
        reveal(table_len);
        reveal(table_code);
        reveal(table_last);
        reveal(table_group);
        reveal_with_fuel(key_code, 5);
    }
    assert(entry_fits_data(table_part_5()[18], 98)) by {
        reveal(entry_fits_data);
        reveal(table_len);
        reveal(table_code);
        reveal(table_last);
        reveal(table_group);
        reveal_with_fuel(key_code, 5);
    }
    assert(entry_fits_data(table_part_5()[19], 99)) by {
        reveal(entry_fits_data);
        reveal(table_len);
        reveal(table_code);
        reveal(table_last);
        reveal(table_group);
        reveal_with_fuel(key_code, 5);
    }
}

/// The entries of the table from 80 to 99 fit the table data.
proof fn lemma_part_5_matches()
    ensures
        forall|k: int| 80 <= k < 100 ==> #[trigger] entry_matches(binding_table(), k),
{
    lemma_part_5_index();
    lemma_part_5_data();
    assert forall|k: int| 80 <= k < 100 implies #[trigger] entry_matches(binding_table(), k) by {
        reveal(entry_matches);
        assert(binding_table()[80 + (k - 80)] == table_part_5()[k - 80]);
        assert(entry_fits_data(table_part_5()[k - 80], 80 + (k - 80)));
    }
}

/// The entries of [`table_part_6`] stand at 100 to 119 of the table.
#[verifier::spinoff_prover]
#[verifier::rlimit(50)]
proof fn lemma_part_6_index()
    ensures
        forall|i: int| 0 <= i < 20 ==> #[trigger] binding_table()[100 + i] == table_part_6()[i],
{
}

/// What the table data says of the entries of [`table_part_6`].
#[verifier::spinoff_prover]
#[verifier::rlimit(50)]
proof fn lemma_part_6_data()
    ensures
        forall|i: int| 0 <= i < 20 ==> #[trigger] entry_fits_data(table_part_6()[i], 100 + i),
{
    assert(entry_fits_data(table_part_6()[0], 100)) by {
        reveal(entry_fits_data);
        reveal(table_len);
        reveal(table_code);
        reveal(table_last);
        reveal(table_group);
        reveal_with_fuel(key_code, 5);
    }
    assert(entry_fits_data(table_part_6()[1], 101)) by {
        reveal(entry_fits_data);
        reveal(table_len);
        reveal(table_code);
        reveal(table_last);
        reveal(table_group);
        reveal_with_fuel(key_code, 5);
    }
    assert(entry_fits_data(table_part_6()[2], 102)) by {
        reveal(entry_fits_data);
        reveal(table_len);
        reveal(table_code);
        reveal(table_last);
        reveal(table_group);
        reveal_with_fuel(key_code, 5);
    }
    assert(entry_fits_data(table_part_6()[3], 103)) by {
        reveal(entry_fits_data);
        reveal(table_len);
        reveal(table_code);
        reveal(table_last);
        reveal(table_group);
        reveal_with_fuel(key_code, 5);
    }
    assert(entry_fits_data(table_part_6()[4], 104)) by {
        reveal(entry_fits_data);
        reveal(table_len);
        reveal(table_code);
        reveal(table_last);
        reveal(table_group);
        reveal_with_fuel(key_code, 5);
    }
    assert(entry_fits_data(table_part_6()[5], 105)) by {
        reveal(entry_fits_data);
        reveal(table_len);
        reveal(table_code);
        reveal(table_last);
        reveal(table_group);
        reveal_with_fuel(key_code, 5);
    }
    assert(entry_fits_data(table_part_6()[6], 106)) by {
        reveal(entry_fits_data);
        reveal(table_len);
        reveal(table_code);
        reveal(table_last);
        reveal(table_group);
        reveal_with_fuel(key_code, 5);
    }
    assert(entry_fits_data(table_part_6()[7], 107)) by {
        reveal(entry_fits_data);
        reveal(table_len);
        reveal(table_code);
        reveal(table_last);
        reveal(table_group);
        reveal_with_fuel(key_code, 5);
    }
    assert(entry_fits_data(table_part_6()[8], 108)) by {
        reveal(entry_fits_data);
        reveal(table_len);
        reveal(table_code);
        reveal(table_last);
        reveal(table_group);
        reveal_with_fuel(key_code, 5);
    }
    assert(entry_fits_data(table_part_6()[9], 109)) by {
        reveal(entry_fits_data);
        reveal(table_len);
        reveal(table_code);
        reveal(table_last);
        reveal(table_group);
        reveal_with_fuel(key_code, 5);
    }
    assert(entry_fits_data(table_part_6()[10], 110)) by {
        reveal(entry_fits_data);
        reveal(table_len);
        reveal(table_code);
        reveal(table_last);
        reveal(table_group);
        reveal_with_fuel(key_code, 5);
    }
    assert(entry_fits_data(table_part_6()[11], 111)) by {
        reveal(entry_fits_data);
        reveal(table_len);
        reveal(table_code);
        reveal(table_last);
        reveal(table_group);
        reveal_with_fuel(key_code, 5);
    }
    assert(entry_fits_data(table_part_6()[12], 112)) by {
        reveal(entry_fits_data);
        reveal(table_len);
        reveal(table_code);
        reveal(table_last);
        reveal(table_group);
        reveal_with_fuel(key_code, 5);
    }
    assert(entry_fits_data(table_part_6()[13], 113)) by {
        reveal(entry_fits_data);
        reveal(table_len);
        reveal(table_code);
        reveal(table_last);
        reveal(table_group);
        reveal_with_fuel(key_code, 5);
    }
    assert(entry_fits_data(table_part_6()[14], 114)) by {
        reveal(entry_fits_data);
        reveal(table_len);
        reveal(table_code);
        reveal(table_last);
        reveal(table_group);
        reveal_with_fuel(key_code, 5);
    }
    assert(entry_fits_data(table_part_6()[15], 115)) by {
        reveal(entry_fits_data);
        reveal(table_len);
        reveal(table_code);
        reveal(table_last);
        reveal(table_group);
        reveal_with_fuel(key_code, 5);
    }
    assert(entry_fits_data(table_part_6()[16], 116)) by {
        reveal(entry_fits_data);
        reveal(table_len);
        reveal(table_code);
        reveal(table_last);
        reveal(table_group);
        reveal_with_fuel(key_code, 5);
    }
    assert(entry_fits_data(table_part_6()[17], 117)) by {
        reveal(entry_fits_data);
        reveal(table_len);
        reveal(table_code);
        reveal(table_last);
        reveal(table_group);
        reveal_with_fuel(key_code, 5);
    }
    assert(entry_fits_data(table_part_6()[18], 118)) by {
        reveal(entry_fits_data);
        reveal(table_len);
        reveal(table_code);
        reveal(table_last);
        reveal(table_group);
        reveal_with_fuel(key_code, 5);
    }
    assert(entry_fits_data(table_part_6()[19], 119)) by {
        reveal(entry_fits_data);
        reveal(table_len);
        reveal(table_code);
        reveal(table_last);
        reveal(table_group);
        reveal_with_fuel(key_code, 5);
    }
}

/// The entries of the table from 100 to 119 fit the table data.
proof fn lemma_part_6_matches()
    ensures
        forall|k: int| 100 <= k < 120 ==> #[trigger] entry_matches(binding_table(), k),
{
    lemma_part_6_index();
    lemma_part_6_data();
    assert forall|k: int| 100 <= k < 120 implies #[trigger] entry_matches(binding_table(), k) by {
        reveal(entry_matches);
        assert(binding_table()[100 + (k - 100)] == table_part_6()[k - 100]);
        assert(entry_fits_data(table_part_6()[k - 100], 100 + (k - 100)));
    }
}

/// The entries of [`table_part_7`] stand at 120 to 139 of the table.
#[verifier::spinoff_prover]
#[verifier::rlimit(50)]
proof fn lemma_part_7_index()
    ensures
        forall|i: int| 0 <= i < 20 ==> #[trigger] binding_table()[120 + i] == table_part_7()[i],
{
}

/// What the table data says of the entries of [`table_part_7`].
#[verifier::spinoff_prover]
#[verifier::rlimit(50)]
proof fn lemma_part_7_data()
    ensures
        forall|i: int| 0 <= i < 20 ==> #[trigger] entry_fits_data(table_part_7()[i], 120 + i),
{
    assert(entry_fits_data(table_part_7()[0], 120)) by {
        reveal(entry_fits_data);
        reveal(table_len);
        reveal(table_code);
        reveal(table_last);
        reveal(table_group);
        reveal_with_fuel(key_code, 5);
    }
    assert(entry_fits_data(table_part_7()[1], 121)) by {
        reveal(entry_fits_data);
        reveal(table_len);
        reveal(table_code);
        reveal(table_last);
        reveal(table_group);
        reveal_with_fuel(key_code, 5);
    }
    assert(entry_fits_data(table_part_7()[2], 122)) by {
        reveal(entry_fits_data);
        reveal(table_len);
        reveal(table_code);
        reveal(table_last);
        reveal(table_group);
        reveal_with_fuel(key_code, 5);
    }
    assert(entry_fits_data(table_part_7()[3], 123)) by {
        reveal(entry_fits_data);
        reveal(table_len);
        reveal(table_code);
        reveal(table_last);
        reveal(table_group);
        reveal_with_fuel(key_code, 5);
    }
    assert(entry_fits_data(table_part_7()[4], 124)) by {
        reveal(entry_fits_data);
        reveal(table_len);
        reveal(table_code);
        reveal(table_last);
        reveal(table_group);
        reveal_with_fuel(key_code, 5);
    }
    assert(entry_fits_data(table_part_7()[5], 125)) by {
        reveal(entry_fits_data);
        reveal(table_len);
        reveal(table_code);
        reveal(table_last);
        reveal(table_group);
        reveal_with_fuel(key_code, 5);
    }
    assert(entry_fits_data(table_part_7()[6], 126)) by {
        reveal(entry_fits_data);
        reveal(table_len);
        reveal(table_code);
        reveal(table_last);
        reveal(table_group);
        reveal_with_fuel(key_code, 5);
    }
    assert(entry_fits_data(table_part_7()[7], 127)) by {
        reveal(entry_fits_data);
        reveal(table_len);
        reveal(table_code);
        reveal(table_last);
        reveal(table_group);
        reveal_with_fuel(key_code, 5);
    }
    assert(entry_fits_data(table_part_7()[8], 128)) by {
        reveal(entry_fits_data);
        reveal(table_len);
        reveal(table_code);
        reveal(table_last);
        reveal(table_group);
        reveal_with_fuel(key_code, 5);
    }
    assert(entry_fits_data(table_part_7()[9], 129)) by {
        reveal(entry_fits_data);
        reveal(table_len);
        reveal(table_code);
        reveal(table_last);
        reveal(table_group);
        reveal_with_fuel(key_code, 5);
    }
    assert(entry_fits_data(table_part_7()[10], 130)) by {
        reveal(entry_fits_data);
        reveal(table_len);
        reveal(table_code);
        reveal(table_last);
        reveal(table_group);
        reveal_with_fuel(key_code, 5);
    }
    assert(entry_fits_data(table_part_7()[11], 131)) by {
        reveal(entry_fits_data);
        reveal(table_len);
        reveal(table_code);
        reveal(table_last);
        reveal(table_group);
        reveal_with_fuel(key_code, 5);
    }
    assert(entry_fits_data(table_part_7()[12], 132)) by {
        reveal(entry_fits_data);
        reveal(table_len);
        reveal(table_code);
        reveal(table_last);
        reveal(table_group);
        reveal_with_fuel(key_code, 5);
    }
    assert(entry_fits_data(table_part_7()[13], 133)) by {
        reveal(entry_fits_data);
        reveal(table_len);
        reveal(table_code);
        reveal(table_last);
        reveal(table_group);
        reveal_with_fuel(key_code, 5);
    }
    assert(entry_fits_data(table_part_7()[14], 134)) by {
        reveal(entry_fits_data);
        reveal(table_len);
        reveal(table_code);
        reveal(table_last);
        reveal(table_group);
        reveal_with_fuel(key_code, 5);
    }
    assert(entry_fits_data(table_part_7()[15], 135)) by {
        reveal(entry_fits_data);
        reveal(table_len);
        reveal(table_code);
        reveal(table_last);
        reveal(table_group);
        reveal_with_fuel(key_code, 5);
    }
    assert(entry_fits_data(table_part_7()[16], 136)) by {
        reveal(entry_fits_data);
        reveal(table_len);
        reveal(table_code);
        reveal(table_last);
        reveal(table_group);
        reveal_with_fuel(key_code, 5);
    }
    assert(entry_fits_data(table_part_7()[17], 137)) by {
        reveal(entry_fits_data);
        reveal(table_len);
        reveal(table_code);
        reveal(table_last);
        reveal(table_group);
        reveal_with_fuel(key_code, 5);
    }
    assert(entry_fits_data(table_part_7()[18], 138)) by {
        reveal(entry_fits_data);
        reveal(table_len);
        reveal(table_code);
        reveal(table_last);
        reveal(table_group);
        reveal_with_fuel(key_code, 5);
    }
    assert(entry_fits_data(table_part_7()[19], 139)) by {
        reveal(entry_fits_data);
        reveal(table_len);
        reveal(table_code);
        reveal(table_last);
        reveal(table_group);
        reveal_with_fuel(key_code, 5);
    }
}

/// The entries of the table from 120 to 139 fit the table data.
proof fn lemma_part_7_matches()
    ensures
        forall|k: int| 120 <= k < 140 ==> #[trigger] entry_matches(binding_table(), k),
{
    lemma_part_7_index();
    lemma_part_7_data();
    assert forall|k: int| 120 <= k < 140 implies #[trigger] entry_matches(binding_table(), k) by {
        reveal(entry_matches);
        assert(binding_table()[120 + (k - 120)] == table_part_7()[k - 120]);
        assert(entry_fits_data(table_part_7()[k - 120], 120 + (k - 120)));
    }
}

/// The entries of [`table_part_8`] stand at 140 to 159 of the table.
#[verifier::spinoff_prover]
#[verifier::rlimit(50)]
proof fn lemma_part_8_index()
    ensures
        forall|i: int| 0 <= i < 20 ==> #[trigger] binding_table()[140 + i] == table_part_8()[i],
{
}

/// What the table data says of the entries of [`table_part_8`].
#[verifier::spinoff_prover]
#[verifier::rlimit(50)]
proof fn lemma_part_8_data()
    ensures
        forall|i: int| 0 <= i < 20 ==> #[trigger] entry_fits_data(table_part_8()[i], 140 + i),
{
    assert(entry_fits_data(table_part_8()[0], 140)) by {
        reveal(entry_fits_data);
        reveal(table_len);
        reveal(table_code);
        reveal(table_last);
        reveal(table_group);
        reveal_with_fuel(key_code, 5);
    }
    assert(entry_fits_data(table_part_8()[1], 141)) by {
        reveal(entry_fits_data);
        reveal(table_len);
        reveal(table_code);
        reveal(table_last);
        reveal(table_group);
        reveal_with_fuel(key_code, 5);
    }
    assert(entry_fits_data(table_part_8()[2], 142)) by {
        reveal(entry_fits_data);
        reveal(table_len);
        reveal(table_code);
        reveal(table_last);
        reveal(table_group);
        reveal_with_fuel(key_code, 5);
    }
    assert(entry_fits_data(table_part_8()[3], 143)) by {
        reveal(entry_fits_data);
        reveal(table_len);
        reveal(table_code);
        reveal(table_last);
        reveal(table_group);
        reveal_with_fuel(key_code, 5);
    }
    assert(entry_fits_data(table_part_8()[4], 144)) by {
        reveal(entry_fits_data);
        reveal(table_len);
        reveal(table_code);
        reveal(table_last);
        reveal(table_group);
        reveal_with_fuel(key_code, 5);
    }
    assert(entry_fits_data(table_part_8()[5], 145)) by {
        reveal(entry_fits_data);
        reveal(table_len);
        reveal(table_code);
        reveal(table_last);
        reveal(table_group);
        reveal_with_fuel(key_code, 5);
    }
    assert(entry_fits_data(table_part_8()[6], 146)) by {
        reveal(entry_fits_data);
        reveal(table_len);
        reveal(table_code);
        reveal(table_last);
        reveal(table_group);
        reveal_with_fuel(key_code, 5);
    }
    assert(entry_fits_data(table_part_8()[7], 147)) by {
        reveal(entry_fits_data);
        reveal(table_len);
        reveal(table_code);
        reveal(table_last);
        reveal(table_group);
        reveal_with_fuel(key_code, 5);
    }
    assert(entry_fits_data(table_part_8()[8], 148)) by {
        reveal(entry_fits_data);
        reveal(table_len);
        reveal(table_code);
        reveal(table_last);
        reveal(table_group);
        reveal_with_fuel(key_code, 5);
    }
    assert(entry_fits_data(table_part_8()[9], 149)) by {
        reveal(entry_fits_data);
        reveal(table_len);
        reveal(table_code);
        reveal(table_last);
        reveal(table_group);
        reveal_with_fuel(key_code, 5);
    }
    assert(entry_fits_data(table_part_8()[10], 150)) by {
        reveal(entry_fits_data);
        reveal(table_len);
        reveal(table_code);
        reveal(table_last);
        reveal(table_group);
        reveal_with_fuel(key_code, 5);
    }
    assert(entry_fits_data(table_part_8()[11], 151)) by {
        reveal(entry_fits_data);
        reveal(table_len);
        reveal(table_code);
        reveal(table_last);
        reveal(table_group);
        reveal_with_fuel(key_code, 5);
    }
    assert(entry_fits_data(table_part_8()[12], 152)) by {
        reveal(entry_fits_data);
        reveal(table_len);
        reveal(table_code);
        reveal(table_last);
        reveal(table_group);
        reveal_with_fuel(key_code, 5);
    }
    assert(entry_fits_data(table_part_8()[13], 153)) by {
        reveal(entry_fits_data);
        reveal(table_len);
        reveal(table_code);
        reveal(table_last);
        reveal(table_group);
        reveal_with_fuel(key_code, 5);
    }
    assert(entry_fits_data(table_part_8()[14], 154)) by {
        reveal(entry_fits_data);
        reveal(table_len);
        reveal(table_code);
        reveal(table_last);
        reveal(table_group);
        reveal_with_fuel(key_code, 5);
    }
    assert(entry_fits_data(table_part_8()[15], 155)) by {
        reveal(entry_fits_data);
        reveal(table_len);
        reveal(table_code);
        reveal(table_last);
        reveal(table_group);
        reveal_with_fuel(key_code, 5);
    }
    assert(entry_fits_data(table_part_8()[16], 156)) by {
        reveal(entry_fits_data);
        reveal(table_len);
        reveal(table_code);
        reveal(table_last);
        reveal(table_group);
        reveal_with_fuel(key_code, 5);
    }
    assert(entry_fits_data(table_part_8()[17], 157)) by {
        reveal(entry_fits_data);
        reveal(table_len);
        reveal(table_code);
        reveal(table_last);
        reveal(table_group);
        reveal_with_fuel(key_code, 5);
    }
    assert(entry_fits_data(table_part_8()[18], 158)) by {
        reveal(entry_fits_data);
        reveal(table_len);
        reveal(table_code);
        reveal(table_last);
        reveal(table_group);
        reveal_with_fuel(key_code, 5);
    }
    assert(entry_fits_data(table_part_8()[19], 159)) by {
        reveal(entry_fits_data);
        reveal(table_len);
        reveal(table_code);
        reveal(table_last);
        reveal(table_group);
        reveal_with_fuel(key_code, 5);
    }
}

/// The entries of the table from 140 to 159 fit the table data.
proof fn lemma_part_8_matches()
    ensures
        forall|k: int| 140 <= k < 160 ==> #[trigger] entry_matches(binding_table(), k),
{
    lemma_part_8_index();
    lemma_part_8_data();
    assert forall|k: int| 140 <= k < 160 implies #[trigger] entry_matches(binding_table(), k) by {
        reveal(entry_matches);
        assert(binding_table()[140 + (k - 140)] == table_part_8()[k - 140]);
        assert(entry_fits_data(table_part_8()[k - 140], 140 + (k - 140)));
    }
}

/// The entries of [`table_part_9`] stand at 160 to 179 of the table.
#[verifier::spinoff_prover]
#[verifier::rlimit(50)]
proof fn lemma_part_9_index()
    ensures
        forall|i: int| 0 <= i < 20 ==> #[trigger] binding_table()[160 + i] == table_part_9()[i],
{
}

/// What the table data says of the entries of [`table_part_9`].
#[verifier::spinoff_prover]
#[verifier::rlimit(50)]
proof fn lemma_part_9_data()
    ensures
        forall|i: int| 0 <= i < 20 ==> #[trigger] entry_fits_data(table_part_9()[i], 160 + i),
{
    assert(entry_fits_data(table_part_9()[0], 160)) by {
        reveal(entry_fits_data);
        reveal(table_len);
        reveal(table_code);
        reveal(table_last);
        reveal(table_group);
        reveal_with_fuel(key_code, 5);
    }
    assert(entry_fits_data(table_part_9()[1], 161)) by {
        reveal(entry_fits_data);
        reveal(table_len);
        reveal(table_code);
        reveal(table_last);
        reveal(table_group);
        reveal_with_fuel(key_code, 5);
    }
    assert(entry_fits_data(table_part_9()[2], 162)) by {
        reveal(entry_fits_data);
        reveal(table_len);
        reveal(table_code);
        reveal(table_last);
        reveal(table_group);
        reveal_with_fuel(key_code, 5);
    }
    assert(entry_fits_data(table_part_9()[3], 163)) by {
        reveal(entry_fits_data);
        reveal(table_len);
        reveal(table_code);
        reveal(table_last);
        reveal(table_group);
        reveal_with_fuel(key_code, 5);
    }
    assert(entry_fits_data(table_part_9()[4], 164)) by {
        reveal(entry_fits_data);
        reveal(table_len);
        reveal(table_code);
        reveal(table_last);
        reveal(table_group);
        reveal_with_fuel(key_code, 5);
    }
    assert(entry_fits_data(table_part_9()[5], 165)) by {
        reveal(entry_fits_data);
        reveal(table_len);
        reveal(table_code);
        reveal(table_last);
        reveal(table_group);
        reveal_with_fuel(key_code, 5);
    }
    assert(entry_fits_data(table_part_9()[6], 166)) by {
        reveal(entry_fits_data);
        reveal(table_len);
        reveal(table_code);
        reveal(table_last);
        reveal(table_group);
        reveal_with_fuel(key_code, 5);
    }
    assert(entry_fits_data(table_part_9()[7], 167)) by {
        reveal(entry_fits_data);
        reveal(table_len);
        reveal(table_code);
        reveal(table_last);
        reveal(table_group);
        reveal_with_fuel(key_code, 5);
    }
    assert(entry_fits_data(table_part_9()[8], 168)) by {
        reveal(entry_fits_data);
        reveal(table_len);
        reveal(table_code);
        reveal(table_last);
        reveal(table_group);
        reveal_with_fuel(key_code, 5);
    }
    assert(entry_fits_data(table_part_9()[9], 169)) by {
        reveal(entry_fits_data);
        reveal(table_len);
        reveal(table_code);
        reveal(table_last);
        reveal(table_group);
        reveal_with_fuel(key_code, 5);
    }
    assert(entry_fits_data(table_part_9()[10], 170)) by {
        reveal(entry_fits_data);
        reveal(table_len);
        reveal(table_code);
        reveal(table_last);
        reveal(table_group);
        reveal_with_fuel(key_code, 5);
    }
    assert(entry_fits_data(table_part_9()[11], 171)) by {
        reveal(entry_fits_data);
        reveal(table_len);
        reveal(table_code);
        reveal(table_last);
        reveal(table_group);
        reveal_with_fuel(key_code, 5);
    }
    assert(entry_fits_data(table_part_9()[12], 172)) by {
        reveal(entry_fits_data);
        reveal(table_len);
        reveal(table_code);
        reveal(table_last);
        reveal(table_group);
        reveal_with_fuel(key_code, 5);
    }
    assert(entry_fits_data(table_part_9()[13], 173)) by {
        reveal(entry_fits_data);
        reveal(table_len);
        reveal(table_code);
        reveal(table_last);
        reveal(table_group);
        reveal_with_fuel(key_code, 5);
    }
    assert(entry_fits_data(table_part_9()[14], 174)) by {
        reveal(entry_fits_data);
        reveal(table_len);
        reveal(table_code);
        reveal(table_last);
        reveal(table_group);
        reveal_with_fuel(key_code, 5);
    }
    assert(entry_fits_data(table_part_9()[15], 175)) by {
        reveal(entry_fits_data);
        reveal(table_len);
        reveal(table_code);
        reveal(table_last);
        reveal(table_group);
        reveal_with_fuel(key_code, 5);
    }
    assert(entry_fits_data(table_part_9()[16], 176)) by {
        reveal(entry_fits_data);
        reveal(table_len);
        reveal(table_code);
        reveal(table_last);
        reveal(table_group);
        reveal_with_fuel(key_code, 5);
    }
    assert(entry_fits_data(table_part_9()[17], 177)) by {
        reveal(entry_fits_data);
        reveal(table_len);
        reveal(table_code);
        reveal(table_last);
        reveal(table_group);
        reveal_with_fuel(key_code, 5);
    }
    assert(entry_fits_data(table_part_9()[18], 178)) by {
        reveal(entry_fits_data);
        reveal(table_len);
        reveal(table_code);
        reveal(table_last);
        reveal(table_group);
        reveal_with_fuel(key_code, 5);
    }
    assert(entry_fits_data(table_part_9()[19], 179)) by {
        reveal(entry_fits_data);
        reveal(table_len);
        reveal(table_code);
        reveal(table_last);
        reveal(table_group);
        reveal_with_fuel(key_code, 5);
    }
}

/// The entries of the table from 160 to 179 fit the table data.
proof fn lemma_part_9_matches()
    ensures
        forall|k: int| 160 <= k < 180 ==> #[trigger] entry_matches(binding_table(), k),
{
    lemma_part_9_index();
    lemma_part_9_data();
    assert forall|k: int| 160 <= k < 180 implies #[trigger] entry_matches(binding_table(), k) by {
        reveal(entry_matches);
        assert(binding_table()[160 + (k - 160)] == table_part_9()[k - 160]);
        assert(entry_fits_data(table_part_9()[k - 160], 160 + (k - 160)));
    }
}

/// The entries of [`table_part_10`] stand at 180 to 199 of the table.
#[verifier::spinoff_prover]
#[verifier::rlimit(50)]
proof fn lemma_part_10_index()
    ensures
        forall|i: int| 0 <= i < 20 ==> #[trigger] binding_table()[180 + i] == table_part_10()[i],
{
}

/// What the table data says of the entries of [`table_part_10`].
#[verifier::spinoff_prover]
#[verifier::rlimit(50)]
proof fn lemma_part_10_data()
    ensures
        forall|i: int| 0 <= i < 20 ==> #[trigger] entry_fits_data(table_part_10()[i], 180 + i),
{
    assert(entry_fits_data(table_part_10()[0], 180)) by {
        reveal(entry_fits_data);
        reveal(table_len);
        reveal(table_code);
        reveal(table_last);
        reveal(table_group);
        reveal_with_fuel(key_code, 5);
    }
    assert(entry_fits_data(table_part_10()[1], 181)) by {
        reveal(entry_fits_data);
        reveal(table_len);
        reveal(table_code);
        reveal(table_last);
        reveal(table_group);
        reveal_with_fuel(key_code, 5);
    }
    assert(entry_fits_data(table_part_10()[2], 182)) by {
        reveal(entry_fits_data);
        reveal(table_len);
        reveal(table_code);
        reveal(table_last);
        reveal(table_group);
        reveal_with_fuel(key_code, 5);
    }
    assert(entry_fits_data(table_part_10()[3], 183)) by {
        reveal(entry_fits_data);
        reveal(table_len);
        reveal(table_code);
        reveal(table_last);
        reveal(table_group);
        reveal_with_fuel(key_code, 5);
    }
    assert(entry_fits_data(table_part_10()[4], 184)) by {
        reveal(entry_fits_data);
        reveal(table_len);
        reveal(table_code);
        reveal(table_last);
        reveal(table_group);
        reveal_with_fuel(key_code, 5);
    }
    assert(entry_fits_data(table_part_10()[5], 185)) by {
        reveal(entry_fits_data);
        reveal(table_len);
        reveal(table_code);
        reveal(table_last);
        reveal(table_group);
        reveal_with_fuel(key_code, 5);
    }
    assert(entry_fits_data(table_part_10()[6], 186)) by {
        reveal(entry_fits_data);
        reveal(table_len);
        reveal(table_code);
        reveal(table_last);
        reveal(table_group);
        reveal_with_fuel(key_code, 5);
    }
    assert(entry_fits_data(table_part_10()[7], 187)) by {
        reveal(entry_fits_data);
        reveal(table_len);
        reveal(table_code);
        reveal(table_last);
        reveal(table_group);
        reveal_with_fuel(key_code, 5);
    }
    assert(entry_fits_data(table_part_10()[8], 188)) by {
        reveal(entry_fits_data);
        reveal(table_len);
        reveal(table_code);
        reveal(table_last);
        reveal(table_group);
        reveal_with_fuel(key_code, 5);
    }
    assert(entry_fits_data(table_part_10()[9], 189)) by {
        reveal(entry_fits_data);
        reveal(table_len);
        reveal(table_code);
        reveal(table_last);
        reveal(table_group);
        reveal_with_fuel(key_code, 5);
    }
    assert(entry_fits_data(table_part_10()[10], 190)) by {
        reveal(entry_fits_data);
        reveal(table_len);
        reveal(table_code);
        reveal(table_last);
        reveal(table_group);
        reveal_with_fuel(key_code, 5);
    }
    assert(entry_fits_data(table_part_10()[11], 191)) by {
        reveal(entry_fits_data);
        reveal(table_len);
        reveal(table_code);
        reveal(table_last);
        reveal(table_group);
        reveal_with_fuel(key_code, 5);
    }
    assert(entry_fits_data(table_part_10()[12], 192)) by {
        reveal(entry_fits_data);
        reveal(table_len);
        reveal(table_code);
        reveal(table_last);
        reveal(table_group);
        reveal_with_fuel(key_code, 5);
    }
    assert(entry_fits_data(table_part_10()[13], 193)) by {
        reveal(entry_fits_data);
        reveal(table_len);
        reveal(table_code);
        reveal(table_last);
        reveal(table_group);
        reveal_with_fuel(key_code, 5);
    }
    assert(entry_fits_data(table_part_10()[14], 194)) by {
        reveal(entry_fits_data);
        reveal(table_len);
        reveal(table_code);
        reveal(table_last);
        reveal(table_group);
        reveal_with_fuel(key_code, 5);
    }
    assert(entry_fits_data(table_part_10()[15], 195)) by {
        reveal(entry_fits_data);
        reveal(table_len);
        reveal(table_code);
        reveal(table_last);
        reveal(table_group);
        reveal_with_fuel(key_code, 5);
    }
    assert(entry_fits_data(table_part_10()[16], 196)) by {
        reveal(entry_fits_data);
        reveal(table_len);
        reveal(table_code);
        reveal(table_last);
        reveal(table_group);
        reveal_with_fuel(key_code, 5);
    }
    assert(entry_fits_data(table_part_10()[17], 197)) by {
        reveal(entry_fits_data);
        reveal(table_len);
        reveal(table_code);
        reveal(table_last);
        reveal(table_group);
        reveal_with_fuel(key_code, 5);
    }
    assert(entry_fits_data(table_part_10()[18], 198)) by {
        reveal(entry_fits_data);
        reveal(table_len);
        reveal(table_code);
        reveal(table_last);
        reveal(table_group);
        reveal_with_fuel(key_code, 5);
    }
    assert(entry_fits_data(table_part_10()[19], 199)) by {
        reveal(entry_fits_data);
        reveal(table_len);
        reveal(table_code);
        reveal(table_last);
        reveal(table_group);
        reveal_with_fuel(key_code, 5);
    }
}

/// The entries of the table from 180 to 199 fit the table data.
proof fn lemma_part_10_matches()
    ensures
        forall|k: int| 180 <= k < 200 ==> #[trigger] entry_matches(binding_table(), k),
{
    lemma_part_10_index();
    lemma_part_10_data();
    assert forall|k: int| 180 <= k < 200 implies #[trigger] entry_matches(binding_table(), k) by {
        reveal(entry_matches);
        assert(binding_table()[180 + (k - 180)] == table_part_10()[k - 180]);
        assert(entry_fits_data(table_part_10()[k - 180], 180 + (k - 180)));
    }
}

/// The entries of [`table_part_11`] stand at 200 to 219 of the table.
#[verifier::spinoff_prover]
#[verifier::rlimit(50)]
proof fn lemma_part_11_index()
    ensures
        forall|i: int| 0 <= i < 20 ==> #[trigger] binding_table()[200 + i] == table_part_11()[i],
{
}

/// What the table data says of the entries of [`table_part_11`].
#[verifier::spinoff_prover]
#[verifier::rlimit(50)]
proof fn lemma_part_11_data()
    ensures
        forall|i: int| 0 <= i < 20 ==> #[trigger] entry_fits_data(table_part_11()[i], 200 + i),
{
    assert(entry_fits_data(table_part_11()[0], 200)) by {
        reveal(entry_fits_data);
        reveal(table_len);
        reveal(table_code);
        reveal(table_last);
        reveal(table_group);
        reveal_with_fuel(key_code, 5);
    }
    assert(entry_fits_data(table_part_11()[1], 201)) by {
        reveal(entry_fits_data);
        reveal(table_len);
        reveal(table_code);
        reveal(table_last);
        reveal(table_group);
        reveal_with_fuel(key_code, 5);
    }
    assert(entry_fits_data(table_part_11()[2], 202)) by {
        reveal(entry_fits_data);
        reveal(table_len);
        reveal(table_code);
        reveal(table_last);
        reveal(table_group);
        reveal_with_fuel(key_code, 5);
    }
    assert(entry_fits_data(table_part_11()[3], 203)) by {
        reveal(entry_fits_data);
        reveal(table_len);
        reveal(table_code);
        reveal(table_last);
        reveal(table_group);
        reveal_with_fuel(key_code, 5);
    }
    assert(entry_fits_data(table_part_11()[4], 204)) by {
        reveal(entry_fits_data);
        reveal(table_len);
        reveal(table_code);
        reveal(table_last);
        reveal(table_group);
        reveal_with_fuel(key_code, 5);
    }
    assert(entry_fits_data(table_part_11()[5], 205)) by {
        reveal(entry_fits_data);
        reveal(table_len);
        reveal(table_code);
        reveal(table_last);
        reveal(table_group);
        reveal_with_fuel(key_code, 5);
    }
    assert(entry_fits_data(table_part_11()[6], 206)) by {
        reveal(entry_fits_data);
        reveal(table_len);
        reveal(table_code);
        reveal(table_last);
        reveal(table_group);
        reveal_with_fuel(key_code, 5);
    }
    assert(entry_fits_data(table_part_11()[7], 207)) by {
        reveal(entry_fits_data);
        reveal(table_len);
        reveal(table_code);
        reveal(table_last);
        reveal(table_group);
        reveal_with_fuel(key_code, 5);
    }
    assert(entry_fits_data(table_part_11()[8], 208)) by {
        reveal(entry_fits_data);
        reveal(table_len);
        reveal(table_code);
        reveal(table_last);
        reveal(table_group);
        reveal_with_fuel(key_code, 5);
    }
    assert(entry_fits_data(table_part_11()[9], 209)) by {
        reveal(entry_fits_data);
        reveal(table_len);
        reveal(table_code);
        reveal(table_last);
        reveal(table_group);
        reveal_with_fuel(key_code, 5);
    }
    assert(entry_fits_data(table_part_11()[10], 210)) by {
        reveal(entry_fits_data);
        reveal(table_len);
        reveal(table_code);
        reveal(table_last);
        reveal(table_group);
        reveal_with_fuel(key_code, 5);
    }
    assert(entry_fits_data(table_part_11()[11], 211)) by {
        reveal(entry_fits_data);
        reveal(table_len);
        reveal(table_code);
        reveal(table_last);
        reveal(table_group);
        reveal_with_fuel(key_code, 5);
    }
    assert(entry_fits_data(table_part_11()[12], 212)) by {
        reveal(entry_fits_data);
        reveal(table_len);
        reveal(table_code);
        reveal(table_last);
        reveal(table_group);
        reveal_with_fuel(key_code, 5);
    }
    assert(entry_fits_data(table_part_11()[13], 213)) by {
        reveal(entry_fits_data);
        reveal(table_len);
        reveal(table_code);
        reveal(table_last);
        reveal(table_group);
        reveal_with_fuel(key_code, 5);
    }
    assert(entry_fits_data(table_part_11()[14], 214)) by {
        reveal(entry_fits_data);
        reveal(table_len);
        reveal(table_code);
        reveal(table_last);
        reveal(table_group);
        reveal_with_fuel(key_code, 5);
    }
    assert(entry_fits_data(table_part_11()[15], 215)) by {
        reveal(entry_fits_data);
        reveal(table_len);
        reveal(table_code);
        reveal(table_last);
        reveal(table_group);
        reveal_with_fuel(key_code, 5);
    }
    assert(entry_fits_data(table_part_11()[16], 216)) by {
        reveal(entry_fits_data);
        reveal(table_len);
        reveal(table_code);
        reveal(table_last);
        reveal(table_group);
        reveal_with_fuel(key_code, 5);
    }
    assert(entry_fits_data(table_part_11()[17], 217)) by {
        reveal(entry_fits_data);
        reveal(table_len);
        reveal(table_code);
        reveal(table_last);
        reveal(table_group);
        reveal_with_fuel(key_code, 5);
    }
    assert(entry_fits_data(table_part_11()[18], 218)) by {
        reveal(entry_fits_data);
        reveal(table_len);
        reveal(table_code);
        reveal(table_last);
        reveal(table_group);
        reveal_with_fuel(key_code, 5);
    }
    assert(entry_fits_data(table_part_11()[19], 219)) by {
        reveal(entry_fits_data);
        reveal(table_len);
        reveal(table_code);
        reveal(table_last);
        reveal(table_group);
        reveal_with_fuel(key_code, 5);
    }
}

/// The entries of the table from 200 to 219 fit the table data.
proof fn lemma_part_11_matches()
    ensures
        forall|k: int| 200 <= k < 220 ==> #[trigger] entry_matches(binding_table(), k),
{
    lemma_part_11_index();
    lemma_part_11_data();
    assert forall|k: int| 200 <= k < 220 implies #[trigger] entry_matches(binding_table(), k) by {
        reveal(entry_matches);
        assert(binding_table()[200 + (k - 200)] == table_part_11()[k - 200]);
        assert(entry_fits_data(table_part_11()[k - 200], 200 + (k - 200)));
    }
}

/// The entries of [`table_part_12`] stand at 220 to 229 of the table.
#[verifier::spinoff_prover]
#[verifier::rlimit(50)]
proof fn lemma_part_12_index()
    ensures
        forall|i: int| 0 <= i < 10 ==> #[trigger] binding_table()[220 + i] == table_part_12()[i],
{
}

/// What the table data says of the entries of [`table_part_12`].
#[verifier::spinoff_prover]
#[verifier::rlimit(50)]
proof fn lemma_part_12_data()
    ensures
        forall|i: int| 0 <= i < 10 ==> #[trigger] entry_fits_data(table_part_12()[i], 220 + i),
{
    assert(entry_fits_data(table_part_12()[0], 220)) by {
        reveal(entry_fits_data);
        reveal(table_len);
        reveal(table_code);
        reveal(table_last);
        reveal(table_group);
        reveal_with_fuel(key_code, 5);
    }
    assert(entry_fits_data(table_part_12()[1], 221)) by {
        reveal(entry_fits_data);
        reveal(table_len);
        reveal(table_code);
        reveal(table_last);
        reveal(table_group);
        reveal_with_fuel(key_code, 5);
    }
    assert(entry_fits_data(table_part_12()[2], 222)) by {
        reveal(entry_fits_data);
        reveal(table_len);
        reveal(table_code);
        reveal(table_last);
        reveal(table_group);
        reveal_with_fuel(key_code, 5);
    }
    assert(entry_fits_data(table_part_12()[3], 223)) by {
        reveal(entry_fits_data);
        reveal(table_len);
        reveal(table_code);
        reveal(table_last);
        reveal(table_group);
        reveal_with_fuel(key_code, 5);
    }
    assert(entry_fits_data(table_part_12()[4], 224)) by {
        reveal(entry_fits_data);
        reveal(table_len);
        reveal(table_code);
        reveal(table_last);
        reveal(table_group);
        reveal_with_fuel(key_code, 5);
    }
    assert(entry_fits_data(table_part_12()[5], 225)) by {
        reveal(entry_fits_data);
        reveal(table_len);
        reveal(table_code);
        reveal(table_last);
        reveal(table_group);
        reveal_with_fuel(key_code, 5);
    }
    assert(entry_fits_data(table_part_12()[6], 226)) by {
        reveal(entry_fits_data);
        reveal(table_len);
        reveal(table_code);
        reveal(table_last);
        reveal(table_group);
        reveal_with_fuel(key_code, 5);
    }
    assert(entry_fits_data(table_part_12()[7], 227)) by {
        reveal(entry_fits_data);
        reveal(table_len);
        reveal(table_code);
        reveal(table_last);
        reveal(table_group);
        reveal_with_fuel(key_code, 5);
    }
    assert(entry_fits_data(table_part_12()[8], 228)) by {
        reveal(entry_fits_data);
        reveal(table_len);
        reveal(table_code);
        reveal(table_last);
        reveal(table_group);
        reveal_with_fuel(key_code, 5);
    }
    assert(entry_fits_data(table_part_12()[9], 229)) by {
        reveal(entry_fits_data);
        reveal(table_len);
        reveal(table_code);
        reveal(table_last);
        reveal(table_group);
        reveal_with_fuel(key_code, 5);
    }
}

/// The entries of the table from 220 to 229 fit the table data.
proof fn lemma_part_12_matches()
    ensures
        forall|k: int| 220 <= k < 230 ==> #[trigger] entry_matches(binding_table(), k),
{
    lemma_part_12_index();
    lemma_part_12_data();
    assert forall|k: int| 220 <= k < 230 implies #[trigger] entry_matches(binding_table(), k) by {
        reveal(entry_matches);
        assert(binding_table()[220 + (k - 220)] == table_part_12()[k - 220]);
        assert(entry_fits_data(table_part_12()[k - 220], 220 + (k - 220)));
    }
}

/// The order facts of the entries and places from 0 to 22.
#[verifier::spinoff_prover]
proof fn lemma_order_0_23()
    ensures
        forall|k: int| 0 <= k < 23 ==> #[trigger] order_facts(k),
{
    assert(order_facts(0)) by {
        reveal(order_facts);
        reveal(table_len);
        reveal(table_code);
        reveal(table_last);
        reveal(table_group);
        reveal(table_parent);
        reveal(table_sorted);
        reveal(table_rank);
    }
    assert(order_facts(1)) by {
        reveal(order_facts);
        reveal(table_len);
        reveal(table_code);
        reveal(table_last);
        reveal(table_group);
        reveal(table_parent);
        reveal(table_sorted);
        reveal(table_rank);
    }
    assert(order_facts(2)) by {
        reveal(order_facts);
        reveal(table_len);
        reveal(table_code);
        reveal(table_last);
        reveal(table_group);
        reveal(table_parent);
        reveal(table_sorted);
        reveal(table_rank);
    }
    assert(order_facts(3)) by {
        reveal(order_facts);
        reveal(table_len);
        reveal(table_code);
        reveal(table_last);
        reveal(table_group);
        reveal(table_parent);
        reveal(table_sorted);
        reveal(table_rank);
    }
    assert(order_facts(4)) by {
        reveal(order_facts);
        reveal(table_len);
        reveal(table_code);
        reveal(table_last);
        reveal(table_group);
        reveal(table_parent);
        reveal(table_sorted);
        reveal(table_rank);
    }
    assert(order_facts(5)) by {
        reveal(order_facts);
        reveal(table_len);
        reveal(table_code);
        reveal(table_last);
        reveal(table_group);
        reveal(table_parent);
        reveal(table_sorted);
        reveal(table_rank);
    }
    assert(order_facts(6)) by {
        reveal(order_facts);
        reveal(table_len);
        reveal(table_code);
        reveal(table_last);
        reveal(table_group);
        reveal(table_parent);
        reveal(table_sorted);
        reveal(table_rank);
    }
    assert(order_facts(7)) by {
        reveal(order_facts);
        reveal(table_len);
        reveal(table_code);
        reveal(table_last);
        reveal(table_group);
        reveal(table_parent);
        reveal(table_sorted);
        reveal(table_rank);
    }
    assert(order_facts(8)) by {
        reveal(order_facts);
        reveal(table_len);
        reveal(table_code);
        reveal(table_last);
        reveal(table_group);
        reveal(table_parent);
        reveal(table_sorted);
        reveal(table_rank);
    }
    assert(order_facts(9)) by {
        reveal(order_facts);
        reveal(table_len);
        reveal(table_code);
        reveal(table_last);
        reveal(table_group);
        reveal(table_parent);
        reveal(table_sorted);
        reveal(table_rank);
    }
    assert(order_facts(10)) by {
        reveal(order_facts);
        reveal(table_len);
        reveal(table_code);
        reveal(table_last);
        reveal(table_group);
        reveal(table_parent);
        reveal(table_sorted);
        reveal(table_rank);
    }
    assert(order_facts(11)) by {
        reveal(order_facts);
        reveal(table_len);
        reveal(table_code);
        reveal(table_last);
        reveal(table_group);
        reveal(table_parent);
        reveal(table_sorted);
        reveal(table_rank);
    }
    assert(order_facts(12)) by {
        reveal(order_facts);
        reveal(table_len);
        reveal(table_code);
        reveal(table_last);
        reveal(table_group);
        reveal(table_parent);
        reveal(table_sorted);
        reveal(table_rank);
    }
    assert(order_facts(13)) by {
        reveal(order_facts);
        reveal(table_len);
        reveal(table_code);
        reveal(table_last);
        reveal(table_group);
        reveal(table_parent);
        reveal(table_sorted);
        reveal(table_rank);
    }
    assert(order_facts(14)) by {
        reveal(order_facts);
        reveal(table_len);
        reveal(table_code);
        reveal(table_last);
        reveal(table_group);
        reveal(table_parent);
        reveal(table_sorted);
        reveal(table_rank);
    }
    assert(order_facts(15)) by {
        reveal(order_facts);
        reveal(table_len);
        reveal(table_code);
        reveal(table_last);
        reveal(table_group);
        reveal(table_parent);
        reveal(table_sorted);
        reveal(table_rank);
    }
    assert(order_facts(16)) by {
        reveal(order_facts);
        reveal(table_len);
        reveal(table_code);
        reveal(table_last);
        reveal(table_group);
        reveal(table_parent);
        reveal(table_sorted);
        reveal(table_rank);
    }
    assert(order_facts(17)) by {
        reveal(order_facts);
        reveal(table_len);
        reveal(table_code);
        reveal(table_last);
        reveal(table_group);
        reveal(table_parent);
        reveal(table_sorted);
        reveal(table_rank);
    }
    assert(order_facts(18)) by {
        reveal(order_facts);
        reveal(table_len);
        reveal(table_code);
        reveal(table_last);
        reveal(table_group);
        reveal(table_parent);
        reveal(table_sorted);
        reveal(table_rank);
    }
    assert(order_facts(19)) by {
        reveal(order_facts);
        reveal(table_len);
        reveal(table_code);
        reveal(table_last);
        reveal(table_group);
        reveal(table_parent);
        reveal(table_sorted);
        reveal(table_rank);
    }
    assert(order_facts(20)) by {
        reveal(order_facts);
        reveal(table_len);
        reveal(table_code);
        reveal(table_last);
        reveal(table_group);
        reveal(table_parent);
        reveal(table_sorted);
        reveal(table_rank);
    }
    assert(order_facts(21)) by {
        reveal(order_facts);
        reveal(table_len);
        reveal(table_code);
        reveal(table_last);
        reveal(table_group);
        reveal(table_parent);
        reveal(table_sorted);
        reveal(table_rank);
    }
    assert(order_facts(22)) by {
        reveal(order_facts);
        reveal(table_len);
        reveal(table_code);
        reveal(table_last);
        reveal(table_group);
        reveal(table_parent);
        reveal(table_sorted);
        reveal(table_rank);
    }
}

/// The order facts of the entries and places from 23 to 45.
#[verifier::spinoff_prover]
proof fn lemma_order_23_46()
    ensures
        forall|k: int| 23 <= k < 46 ==> #[trigger] order_facts(k),
{
    assert(order_facts(23)) by {
        reveal(order_facts);
        reveal(table_len);
        reveal(table_code);
        reveal(table_last);
        reveal(table_group);
        reveal(table_parent);
        reveal(table_sorted);
        reveal(table_rank);
    }
    assert(order_facts(24)) by {
        reveal(order_facts);
        reveal(table_len);
        reveal(table_code);
        reveal(table_last);
        reveal(table_group);
        reveal(table_parent);
        reveal(table_sorted);
        reveal(table_rank);
    }
    assert(order_facts(25)) by {
        reveal(order_facts);
        reveal(table_len);
        reveal(table_code);
        reveal(table_last);
        reveal(table_group);
        reveal(table_parent);
        reveal(table_sorted);
        reveal(table_rank);
    }
    assert(order_facts(26)) by {
        reveal(order_facts);
        reveal(table_len);
        reveal(table_code);
        reveal(table_last);
        reveal(table_group);
        reveal(table_parent);
        reveal(table_sorted);
        reveal(table_rank);
    }
    assert(order_facts(27)) by {
        reveal(order_facts);
        reveal(table_len);
        reveal(table_code);
        reveal(table_last);
        reveal(table_group);
        reveal(table_parent);
        reveal(table_sorted);
        reveal(table_rank);
    }
    assert(order_facts(28)) by {
        reveal(order_facts);
        reveal(table_len);
        reveal(table_code);
        reveal(table_last);
        reveal(table_group);
        reveal(table_parent);
        reveal(table_sorted);
        reveal(table_rank);
    }
    assert(order_facts(29)) by {
        reveal(order_facts);
        reveal(table_len);
        reveal(table_code);
        reveal(table_last);
        reveal(table_group);
        reveal(table_parent);
        reveal(table_sorted);
        reveal(table_rank);
    }
    assert(order_facts(30)) by {
        reveal(order_facts);
        reveal(table_len);
        reveal(table_code);
        reveal(table_last);
        reveal(table_group);
        reveal(table_parent);
        reveal(table_sorted);
        reveal(table_rank);
    }
    assert(order_facts(31)) by {
        reveal(order_facts);
        reveal(table_len);
        reveal(table_code);
        reveal(table_last);
        reveal(table_group);
        reveal(table_parent);
        reveal(table_sorted);
        reveal(table_rank);
    }
    assert(order_facts(32)) by {
        reveal(order_facts);
        reveal(table_len);
        reveal(table_code);
        reveal(table_last);
        reveal(table_group);
        reveal(table_parent);
        reveal(table_sorted);
        reveal(table_rank);
    }
    assert(order_facts(33)) by {
        reveal(order_facts);
        reveal(table_len);
        reveal(table_code);
        reveal(table_last);
        reveal(table_group);
        reveal(table_parent);
        reveal(table_sorted);
        reveal(table_rank);
    }
    assert(order_facts(34)) by {
        reveal(order_facts);
        reveal(table_len);
        reveal(table_code);
        reveal(table_last);
        reveal(table_group);
        reveal(table_parent);
        reveal(table_sorted);
        reveal(table_rank);
    }
    assert(order_facts(35)) by {
        reveal(order_facts);
        reveal(table_len);
        reveal(table_code);
        reveal(table_last);
        reveal(table_group);
        reveal(table_parent);
        reveal(table_sorted);
        reveal(table_rank);
    }
    assert(order_facts(36)) by {
        reveal(order_facts);
        reveal(table_len);
        reveal(table_code);
        reveal(table_last);
        reveal(table_group);
        reveal(table_parent);
        reveal(table_sorted);
        reveal(table_rank);
    }
    assert(order_facts(37)) by {
        reveal(order_facts);
        reveal(table_len);
        reveal(table_code);
        reveal(table_last);
        reveal(table_group);
        reveal(table_parent);
        reveal(table_sorted);
        reveal(table_rank);
    }
    assert(order_facts(38)) by {
        reveal(order_facts);
        reveal(table_len);
        reveal(table_code);
        reveal(table_last);
        reveal(table_group);
        reveal(table_parent);
        reveal(table_sorted);
        reveal(table_rank);
    }
    assert(order_facts(39)) by {
        reveal(order_facts);
        reveal(table_len);
        reveal(table_code);
        reveal(table_last);
        reveal(table_group);
        reveal(table_parent);
        reveal(table_sorted);
        reveal(table_rank);
    }
    assert(order_facts(40)) by {
        reveal(order_facts);
        reveal(table_len);
        reveal(table_code);
        reveal(table_last);
        reveal(table_group);
        reveal(table_parent);
        reveal(table_sorted);
        reveal(table_rank);
    }
    assert(order_facts(41)) by {
        reveal(order_facts);
        reveal(table_len);
        reveal(table_code);
        reveal(table_last);
        reveal(table_group);
        reveal(table_parent);
        reveal(table_sorted);
        reveal(table_rank);
    }
    assert(order_facts(42)) by {
        reveal(order_facts);
        reveal(table_len);
        reveal(table_code);
        reveal(table_last);
        reveal(table_group);
        reveal(table_parent);
        reveal(table_sorted);
        reveal(table_rank);
    }
    assert(order_facts(43)) by {
        reveal(order_facts);
        reveal(table_len);
        reveal(table_code);
        reveal(table_last);
        reveal(table_group);
        reveal(table_parent);
        reveal(table_sorted);
        reveal(table_rank);
    }
    assert(order_facts(44)) by {
        reveal(order_facts);
        reveal(table_len);
        reveal(table_code);
        reveal(table_last);
        reveal(table_group);
        reveal(table_parent);
        reveal(table_sorted);
        reveal(table_rank);
    }
    assert(order_facts(45)) by {
        reveal(order_facts);
        reveal(table_len);
        reveal(table_code);
        reveal(table_last);
        reveal(table_group);
        reveal(table_parent);
        reveal(table_sorted);
        reveal(table_rank);
    }
}

/// The order facts of the entries and places from 46 to 68.
#[verifier::spinoff_prover]
proof fn lemma_order_46_69()
    ensures
        forall|k: int| 46 <= k < 69 ==> #[trigger] order_facts(k),
{
    assert(order_facts(46)) by {
        reveal(order_facts);
        reveal(table_len);
        reveal(table_code);
        reveal(table_last);
        reveal(table_group);
        reveal(table_parent);
        reveal(table_sorted);
        reveal(table_rank);
    }
    assert(order_facts(47)) by {
        reveal(order_facts);
        reveal(table_len);
        reveal(table_code);
        reveal(table_last);
        reveal(table_group);
        reveal(table_parent);
        reveal(table_sorted);
        reveal(table_rank);
    }
    assert(order_facts(48)) by {
        reveal(order_facts);
        reveal(table_len);
        reveal(table_code);
        reveal(table_last);
        reveal(table_group);
        reveal(table_parent);
        reveal(table_sorted);
        reveal(table_rank);
    }
    assert(order_facts(49)) by {
        reveal(order_facts);
        reveal(table_len);
        reveal(table_code);
        reveal(table_last);
        reveal(table_group);
        reveal(table_parent);
        reveal(table_sorted);
        reveal(table_rank);
    }
    assert(order_facts(50)) by {
        reveal(order_facts);
        reveal(table_len);
        reveal(table_code);
        reveal(table_last);
        reveal(table_group);
        reveal(table_parent);
        reveal(table_sorted);
        reveal(table_rank);
    }
    assert(order_facts(51)) by {
        reveal(order_facts);
        reveal(table_len);
        reveal(table_code);
        reveal(table_last);
        reveal(table_group);
        reveal(table_parent);
        reveal(table_sorted);
        reveal(table_rank);
    }
    assert(order_facts(52)) by {
        reveal(order_facts);
        reveal(table_len);
        reveal(table_code);
        reveal(table_last);
        reveal(table_group);
        reveal(table_parent);
        reveal(table_sorted);
        reveal(table_rank);
    }
    assert(order_facts(53)) by {
        reveal(order_facts);
        reveal(table_len);
        reveal(table_code);
        reveal(table_last);
        reveal(table_group);
        reveal(table_parent);
        reveal(table_sorted);
        reveal(table_rank);
    }
    assert(order_facts(54)) by {
        reveal(order_facts);
        reveal(table_len);
        reveal(table_code);
        reveal(table_last);
        reveal(table_group);
        reveal(table_parent);
        reveal(table_sorted);
        reveal(table_rank);
    }
    assert(order_facts(55)) by {
        reveal(order_facts);
        reveal(table_len);
        reveal(table_code);
        reveal(table_last);
        reveal(table_group);
        reveal(table_parent);
        reveal(table_sorted);
        reveal(table_rank);
    }
    assert(order_facts(56)) by {
        reveal(order_facts);
        reveal(table_len);
        reveal(table_code);
        reveal(table_last);
        reveal(table_group);
        reveal(table_parent);
        reveal(table_sorted);
        reveal(table_rank);
    }
    assert(order_facts(57)) by {
        reveal(order_facts);
        reveal(table_len);
        reveal(table_code);
        reveal(table_last);
        reveal(table_group);
        reveal(table_parent);
        reveal(table_sorted);
        reveal(table_rank);
    }
    assert(order_facts(58)) by {
        reveal(order_facts);
        reveal(table_len);
        reveal(table_code);
        reveal(table_last);
        reveal(table_group);
        reveal(table_parent);
        reveal(table_sorted);
        reveal(table_rank);
    }
    assert(order_facts(59)) by {
        reveal(order_facts);
        reveal(table_len);
        reveal(table_code);
        reveal(table_last);
        reveal(table_group);
        reveal(table_parent);
        reveal(table_sorted);
        reveal(table_rank);
    }
    assert(order_facts(60)) by {
        reveal(order_facts);
        reveal(table_len);
        reveal(table_code);
        reveal(table_last);
        reveal(table_group);
        reveal(table_parent);
        reveal(table_sorted);
        reveal(table_rank);
    }
    assert(order_facts(61)) by {
        reveal(order_facts);
        reveal(table_len);
        reveal(table_code);
        reveal(table_last);
        reveal(table_group);
        reveal(table_parent);
        reveal(table_sorted);
        reveal(table_rank);
    }
    assert(order_facts(62)) by {
        reveal(order_facts);
        reveal(table_len);
        reveal(table_code);
        reveal(table_last);
        reveal(table_group);
        reveal(table_parent);
        reveal(table_sorted);
        reveal(table_rank);
    }
    assert(order_facts(63)) by {
        reveal(order_facts);
        reveal(table_len);
        reveal(table_code);
        reveal(table_last);
        reveal(table_group);
        reveal(table_parent);
        reveal(table_sorted);
        reveal(table_rank);
    }
    assert(order_facts(64)) by {
        reveal(order_facts);
        reveal(table_len);
        reveal(table_code);
        reveal(table_last);
        reveal(table_group);
        reveal(table_parent);
        reveal(table_sorted);
        reveal(table_rank);
    }
    assert(order_facts(65)) by {
        reveal(order_facts);
        reveal(table_len);
        reveal(table_code);
        reveal(table_last);
        reveal(table_group);
        reveal(table_parent);
        reveal(table_sorted);
        reveal(table_rank);
    }
    assert(order_facts(66)) by {
        reveal(order_facts);
        reveal(table_len);
        reveal(table_code);
        reveal(table_last);
        reveal(table_group);
        reveal(table_parent);
        reveal(table_sorted);
        reveal(table_rank);
    }
    assert(order_facts(67)) by {
        reveal(order_facts);
        reveal(table_len);
        reveal(table_code);
        reveal(table_last);
        reveal(table_group);
        reveal(table_parent);
        reveal(table_sorted);
        reveal(table_rank);
    }
    assert(order_facts(68)) by {
        reveal(order_facts);
        reveal(table_len);
        reveal(table_code);
        reveal(table_last);
        reveal(table_group);
        reveal(table_parent);
        reveal(table_sorted);
        reveal(table_rank);
    }
}

/// The order facts of the entries and places from 69 to 91.
#[verifier::spinoff_prover]
proof fn lemma_order_69_92()
    ensures
        forall|k: int| 69 <= k < 92 ==> #[trigger] order_facts(k),
{
    assert(order_facts(69)) by {
        reveal(order_facts);
        reveal(table_len);
        reveal(table_code);
        reveal(table_last);
        reveal(table_group);
        reveal(table_parent);
        reveal(table_sorted);
        reveal(table_rank);
    }
    assert(order_facts(70)) by {
        reveal(order_facts);
        reveal(table_len);
        reveal(table_code);
        reveal(table_last);
        reveal(table_group);
        reveal(table_parent);
        reveal(table_sorted);
        reveal(table_rank);
    }
    assert(order_facts(71)) by {
        reveal(order_facts);
        reveal(table_len);
        reveal(table_code);
        reveal(table_last);
        reveal(table_group);
        reveal(table_parent);
        reveal(table_sorted);
        reveal(table_rank);
    }
    assert(order_facts(72)) by {
        reveal(order_facts);
        reveal(table_len);
        reveal(table_code);
        reveal(table_last);
        reveal(table_group);
        reveal(table_parent);
        reveal(table_sorted);
        reveal(table_rank);
    }
    assert(order_facts(73)) by {
        reveal(order_facts);
        reveal(table_len);
        reveal(table_code);
        reveal(table_last);
        reveal(table_group);
        reveal(table_parent);
        reveal(table_sorted);
        reveal(table_rank);
    }
    assert(order_facts(74)) by {
        reveal(order_facts);
        reveal(table_len);
        reveal(table_code);
        reveal(table_last);
        reveal(table_group);
        reveal(table_parent);
        reveal(table_sorted);
        reveal(table_rank);
    }
    assert(order_facts(75)) by {
        reveal(order_facts);
        reveal(table_len);
        reveal(table_code);
        reveal(table_last);
        reveal(table_group);
        reveal(table_parent);
        reveal(table_sorted);
        reveal(table_rank);
    }
    assert(order_facts(76)) by {
        reveal(order_facts);
        reveal(table_len);
        reveal(table_code);
        reveal(table_last);
        reveal(table_group);
        reveal(table_parent);
        reveal(table_sorted);
        reveal(table_rank);
    }
    assert(order_facts(77)) by {
        reveal(order_facts);
        reveal(table_len);
        reveal(table_code);
        reveal(table_last);
        reveal(table_group);
        reveal(table_parent);
        reveal(table_sorted);
        reveal(table_rank);
    }
    assert(order_facts(78)) by {
        reveal(order_facts);
        reveal(table_len);
        reveal(table_code);
        reveal(table_last);
        reveal(table_group);
        reveal(table_parent);
        reveal(table_sorted);
        reveal(table_rank);
    }
    assert(order_facts(79)) by {
        reveal(order_facts);
        reveal(table_len);
        reveal(table_code);
        reveal(table_last);
        reveal(table_group);
        reveal(table_parent);
        reveal(table_sorted);
        reveal(table_rank);
    }
    assert(order_facts(80)) by {
        reveal(order_facts);
        reveal(table_len);
        reveal(table_code);
        reveal(table_last);
        reveal(table_group);
        reveal(table_parent);
        reveal(table_sorted);
        reveal(table_rank);
    }
    assert(order_facts(81)) by {
        reveal(order_facts);
        reveal(table_len);
        reveal(table_code);
        reveal(table_last);
        reveal(table_group);
        reveal(table_parent);
        reveal(table_sorted);
        reveal(table_rank);
    }
    assert(order_facts(82)) by {
        reveal(order_facts);
        reveal(table_len);
        reveal(table_code);
        reveal(table_last);
        reveal(table_group);
        reveal(table_parent);
        reveal(table_sorted);
        reveal(table_rank);
    }
    assert(order_facts(83)) by {
        reveal(order_facts);
        reveal(table_len);
        reveal(table_code);
        reveal(table_last);
        reveal(table_group);
        reveal(table_parent);
        reveal(table_sorted);
        reveal(table_rank);
    }
    assert(order_facts(84)) by {
        reveal(order_facts);
        reveal(table_len);
        reveal(table_code);
        reveal(table_last);
        reveal(table_group);
        reveal(table_parent);
        reveal(table_sorted);
        reveal(table_rank);
    }
    assert(order_facts(85)) by {
        reveal(order_facts);
        reveal(table_len);
        reveal(table_code);
        reveal(table_last);
        reveal(table_group);
        reveal(table_parent);
        reveal(table_sorted);
        reveal(table_rank);
    }
    assert(order_facts(86)) by {
        reveal(order_facts);
        reveal(table_len);
        reveal(table_code);
        reveal(table_last);
        reveal(table_group);
        reveal(table_parent);
        reveal(table_sorted);
        reveal(table_rank);
    }
    assert(order_facts(87)) by {
        reveal(order_facts);
        reveal(table_len);
        reveal(table_code);
        reveal(table_last);
        reveal(table_group);
        reveal(table_parent);
        reveal(table_sorted);
        reveal(table_rank);
    }
    assert(order_facts(88)) by {
        reveal(order_facts);
        reveal(table_len);
        reveal(table_code);
        reveal(table_last);
        reveal(table_group);
        reveal(table_parent);
        reveal(table_sorted);
        reveal(table_rank);
    }
    assert(order_facts(89)) by {
        reveal(order_facts);
        reveal(table_len);
        reveal(table_code);
        reveal(table_last);
        reveal(table_group);
        reveal(table_parent);
        reveal(table_sorted);
        reveal(table_rank);
    }
    assert(order_facts(90)) by {
        reveal(order_facts);
        reveal(table_len);
        reveal(table_code);
        reveal(table_last);
        reveal(table_group);
        reveal(table_parent);
        reveal(table_sorted);
        reveal(table_rank);
    }
    assert(order_facts(91)) by {
        reveal(order_facts);
        reveal(table_len);
        reveal(table_code);
        reveal(table_last);
        reveal(table_group);
        reveal(table_parent);
        reveal(table_sorted);
        reveal(table_rank);
    }
}

/// The order facts of the entries and places from 92 to 114.
#[verifier::spinoff_prover]
proof fn lemma_order_92_115()
    ensures
        forall|k: int| 92 <= k < 115 ==> #[trigger] order_facts(k),
{
    assert(order_facts(92)) by {
        reveal(order_facts);
        reveal(table_len);
        reveal(table_code);
        reveal(table_last);
        reveal(table_group);
        reveal(table_parent);
        reveal(table_sorted);
        reveal(table_rank);
    }
    assert(order_facts(93)) by {
        reveal(order_facts);
        reveal(table_len);
        reveal(table_code);
        reveal(table_last);
        reveal(table_group);
        reveal(table_parent);
        reveal(table_sorted);
        reveal(table_rank);
    }
    assert(order_facts(94)) by {
        reveal(order_facts);
        reveal(table_len);
        reveal(table_code);
        reveal(table_last);
        reveal(table_group);
        reveal(table_parent);
        reveal(table_sorted);
        reveal(table_rank);
    }
    assert(order_facts(95)) by {
        reveal(order_facts);
        reveal(table_len);
        reveal(table_code);
        reveal(table_last);
        reveal(table_group);
        reveal(table_parent);
        reveal(table_sorted);
        reveal(table_rank);
    }
    assert(order_facts(96)) by {
        reveal(order_facts);
        reveal(table_len);
        reveal(table_code);
        reveal(table_last);
        reveal(table_group);
        reveal(table_parent);
        reveal(table_sorted);
        reveal(table_rank);
    }
    assert(order_facts(97)) by {
        reveal(order_facts);
        reveal(table_len);
        reveal(table_code);
        reveal(table_last);
        reveal(table_group);
        reveal(table_parent);
        reveal(table_sorted);
        reveal(table_rank);
    }
    assert(order_facts(98)) by {
        reveal(order_facts);
        reveal(table_len);
        reveal(table_code);
        reveal(table_last);
        reveal(table_group);
        reveal(table_parent);
        reveal(table_sorted);
        reveal(table_rank);
    }
    assert(order_facts(99)) by {
        reveal(order_facts);
        reveal(table_len);
        reveal(table_code);
        reveal(table_last);
        reveal(table_group);
        reveal(table_parent);
        reveal(table_sorted);
        reveal(table_rank);
    }
    assert(order_facts(100)) by {
        reveal(order_facts);
        reveal(table_len);
        reveal(table_code);
        reveal(table_last);
        reveal(table_group);
        reveal(table_parent);
        reveal(table_sorted);
        reveal(table_rank);
    }
    assert(order_facts(101)) by {
        reveal(order_facts);
        reveal(table_len);
        reveal(table_code);
        reveal(table_last);
        reveal(table_group);
        reveal(table_parent);
        reveal(table_sorted);
        reveal(table_rank);
    }
    assert(order_facts(102)) by {
        reveal(order_facts);
        reveal(table_len);
        reveal(table_code);
        reveal(table_last);
        reveal(table_group);
        reveal(table_parent);
        reveal(table_sorted);
        reveal(table_rank);
    }
    assert(order_facts(103)) by {
        reveal(order_facts);
        reveal(table_len);
        reveal(table_code);
        reveal(table_last);
        reveal(table_group);
        reveal(table_parent);
        reveal(table_sorted);
        reveal(table_rank);
    }
    assert(order_facts(104)) by {
        reveal(order_facts);
        reveal(table_len);
        reveal(table_code);
        reveal(table_last);
        reveal(table_group);
        reveal(table_parent);
        reveal(table_sorted);
        reveal(table_rank);
    }
    assert(order_facts(105)) by {
        reveal(order_facts);
        reveal(table_len);
        reveal(table_code);
        reveal(table_last);
        reveal(table_group);
        reveal(table_parent);
        reveal(table_sorted);
        reveal(table_rank);
    }
    assert(order_facts(106)) by {
        reveal(order_facts);
        reveal(table_len);
        reveal(table_code);
        reveal(table_last);
        reveal(table_group);
        reveal(table_parent);
        reveal(table_sorted);
        reveal(table_rank);
    }
    assert(order_facts(107)) by {
        reveal(order_facts);
        reveal(table_len);
        reveal(table_code);
        reveal(table_last);
        reveal(table_group);
        reveal(table_parent);
        reveal(table_sorted);
        reveal(table_rank);
    }
    assert(order_facts(108)) by {
        reveal(order_facts);
        reveal(table_len);
        reveal(table_code);
        reveal(table_last);
        reveal(table_group);
        reveal(table_parent);
        reveal(table_sorted);
        reveal(table_rank);
    }
    assert(order_facts(109)) by {
        reveal(order_facts);
        reveal(table_len);
        reveal(table_code);
        reveal(table_last);
        reveal(table_group);
        reveal(table_parent);
        reveal(table_sorted);
        reveal(table_rank);
    }
    assert(order_facts(110)) by {
        reveal(order_facts);
        reveal(table_len);
        reveal(table_code);
        reveal(table_last);
        reveal(table_group);
        reveal(table_parent);
        reveal(table_sorted);
        reveal(table_rank);
    }
    assert(order_facts(111)) by {
        reveal(order_facts);
        reveal(table_len);
        reveal(table_code);
        reveal(table_last);
        reveal(table_group);
        reveal(table_parent);
        reveal(table_sorted);
        reveal(table_rank);
    }
    assert(order_facts(112)) by {
        reveal(order_facts);
        reveal(table_len);
        reveal(table_code);
        reveal(table_last);
        reveal(table_group);
        reveal(table_parent);
        reveal(table_sorted);
        reveal(table_rank);
    }
    assert(order_facts(113)) by {
        reveal(order_facts);
        reveal(table_len);
        reveal(table_code);
        reveal(table_last);
        reveal(table_group);
        reveal(table_parent);
        reveal(table_sorted);
        reveal(table_rank);
    }
    assert(order_facts(114)) by {
        reveal(order_facts);
        reveal(table_len);
        reveal(table_code);
        reveal(table_last);
        reveal(table_group);
        reveal(table_parent);
        reveal(table_sorted);
        reveal(table_rank);
    }
}

/// The order facts of the entries and places from 115 to 137.
#[verifier::spinoff_prover]
proof fn lemma_order_115_138()
    ensures
        forall|k: int| 115 <= k < 138 ==> #[trigger] order_facts(k),
{
    assert(order_facts(115)) by {
        reveal(order_facts);
        reveal(table_len);
        reveal(table_code);
        reveal(table_last);
        reveal(table_group);
        reveal(table_parent);
        reveal(table_sorted);
        reveal(table_rank);
    }
    assert(order_facts(116)) by {
        reveal(order_facts);
        reveal(table_len);
        reveal(table_code);
        reveal(table_last);
        reveal(table_group);
        reveal(table_parent);
        reveal(table_sorted);
        reveal(table_rank);
    }
    assert(order_facts(117)) by {
        reveal(order_facts);
        reveal(table_len);
        reveal(table_code);
        reveal(table_last);
        reveal(table_group);
        reveal(table_parent);
        reveal(table_sorted);
        reveal(table_rank);
    }
    assert(order_facts(118)) by {
        reveal(order_facts);
        reveal(table_len);
        reveal(table_code);
        reveal(table_last);
        reveal(table_group);
        reveal(table_parent);
        reveal(table_sorted);
        reveal(table_rank);
    }
    assert(order_facts(119)) by {
        reveal(order_facts);
        reveal(table_len);
        reveal(table_code);
        reveal(table_last);
        reveal(table_group);
        reveal(table_parent);
        reveal(table_sorted);
        reveal(table_rank);
    }
    assert(order_facts(120)) by {
        reveal(order_facts);
        reveal(table_len);
        reveal(table_code);
        reveal(table_last);
        reveal(table_group);
        reveal(table_parent);
        reveal(table_sorted);
        reveal(table_rank);
    }
    assert(order_facts(121)) by {
        reveal(order_facts);
        reveal(table_len);
        reveal(table_code);
        reveal(table_last);
        reveal(table_group);
        reveal(table_parent);
        reveal(table_sorted);
        reveal(table_rank);
    }
    assert(order_facts(122)) by {
        reveal(order_facts);
        reveal(table_len);
        reveal(table_code);
        reveal(table_last);
        reveal(table_group);
        reveal(table_parent);
        reveal(table_sorted);
        reveal(table_rank);
    }
    assert(order_facts(123)) by {
        reveal(order_facts);
        reveal(table_len);
        reveal(table_code);
        reveal(table_last);
        reveal(table_group);
        reveal(table_parent);
        reveal(table_sorted);
        reveal(table_rank);
    }
    assert(order_facts(124)) by {
        reveal(order_facts);
        reveal(table_len);
        reveal(table_code);
        reveal(table_last);
        reveal(table_group);
        reveal(table_parent);
        reveal(table_sorted);
        reveal(table_rank);
    }
    assert(order_facts(125)) by {
        reveal(order_facts);
        reveal(table_len);
        reveal(table_code);
        reveal(table_last);
        reveal(table_group);
        reveal(table_parent);
        reveal(table_sorted);
        reveal(table_rank);
    }
    assert(order_facts(126)) by {
        reveal(order_facts);
        reveal(table_len);
        reveal(table_code);
        reveal(table_last);
        reveal(table_group);
        reveal(table_parent);
        reveal(table_sorted);
        reveal(table_rank);
    }
    assert(order_facts(127)) by {
        reveal(order_facts);
        reveal(table_len);
        reveal(table_code);
        reveal(table_last);
        reveal(table_group);
        reveal(table_parent);
        reveal(table_sorted);
        reveal(table_rank);
    }
    assert(order_facts(128)) by {
        reveal(order_facts);
        reveal(table_len);
        reveal(table_code);
        reveal(table_last);
        reveal(table_group);
        reveal(table_parent);
        reveal(table_sorted);
        reveal(table_rank);
    }
    assert(order_facts(129)) by {
        reveal(order_facts);
        reveal(table_len);
        reveal(table_code);
        reveal(table_last);
        reveal(table_group);
        reveal(table_parent);
        reveal(table_sorted);
        reveal(table_rank);
    }
    assert(order_facts(130)) by {
        reveal(order_facts);
        reveal(table_len);
        reveal(table_code);
        reveal(table_last);
        reveal(table_group);
        reveal(table_parent);
        reveal(table_sorted);
        reveal(table_rank);
    }
    assert(order_facts(131)) by {
        reveal(order_facts);
        reveal(table_len);
        reveal(table_code);
        reveal(table_last);
        reveal(table_group);
        reveal(table_parent);
        reveal(table_sorted);
        reveal(table_rank);
    }
    assert(order_facts(132)) by {
        reveal(order_facts);
        reveal(table_len);
        reveal(table_code);
        reveal(table_last);
        reveal(table_group);
        reveal(table_parent);
        reveal(table_sorted);
        reveal(table_rank);
    }
    assert(order_facts(133)) by {
        reveal(order_facts);
        reveal(table_len);
        reveal(table_code);
        reveal(table_last);
        reveal(table_group);
        reveal(table_parent);
        reveal(table_sorted);
        reveal(table_rank);
    }
    assert(order_facts(134)) by {
        reveal(order_facts);
        reveal(table_len);
        reveal(table_code);
        reveal(table_last);
        reveal(table_group);
        reveal(table_parent);
        reveal(table_sorted);
        reveal(table_rank);
    }
    assert(order_facts(135)) by {
        reveal(order_facts);
        reveal(table_len);
        reveal(table_code);
        reveal(table_last);
        reveal(table_group);
        reveal(table_parent);
        reveal(table_sorted);
        reveal(table_rank);
    }
    assert(order_facts(136)) by {
        reveal(order_facts);
        reveal(table_len);
        reveal(table_code);
        reveal(table_last);
        reveal(table_group);
        reveal(table_parent);
        reveal(table_sorted);
        reveal(table_rank);
    }
    assert(order_facts(137)) by {
        reveal(order_facts);
        reveal(table_len);
        reveal(table_code);
        reveal(table_last);
        reveal(table_group);
        reveal(table_parent);
        reveal(table_sorted);
        reveal(table_rank);
    }
}

/// The order facts of the entries and places from 138 to 160.
#[verifier::spinoff_prover]
proof fn lemma_order_138_161()
    ensures
        forall|k: int| 138 <= k < 161 ==> #[trigger] order_facts(k),
{
    assert(order_facts(138)) by {
        reveal(order_facts);
        reveal(table_len);
        reveal(table_code);
        reveal(table_last);
        reveal(table_group);
        reveal(table_parent);
        reveal(table_sorted);
        reveal(table_rank);
    }
    assert(order_facts(139)) by {
        reveal(order_facts);
        reveal(table_len);
        reveal(table_code);
        reveal(table_last);
        reveal(table_group);
        reveal(table_parent);
        reveal(table_sorted);
        reveal(table_rank);
    }
    assert(order_facts(140)) by {
        reveal(order_facts);
        reveal(table_len);
        reveal(table_code);
        reveal(table_last);
        reveal(table_group);
        reveal(table_parent);
        reveal(table_sorted);
        reveal(table_rank);
    }
    assert(order_facts(141)) by {
        reveal(order_facts);
        reveal(table_len);
        reveal(table_code);
        reveal(table_last);
        reveal(table_group);
        reveal(table_parent);
        reveal(table_sorted);
        reveal(table_rank);
    }
    assert(order_facts(142)) by {
        reveal(order_facts);
        reveal(table_len);
        reveal(table_code);
        reveal(table_last);
        reveal(table_group);
        reveal(table_parent);
        reveal(table_sorted);
        reveal(table_rank);
    }
    assert(order_facts(143)) by {
        reveal(order_facts);
        reveal(table_len);
        reveal(table_code);
        reveal(table_last);
        reveal(table_group);
        reveal(table_parent);
        reveal(table_sorted);
        reveal(table_rank);
    }
    assert(order_facts(144)) by {
        reveal(order_facts);
        reveal(table_len);
        reveal(table_code);
        reveal(table_last);
        reveal(table_group);
        reveal(table_parent);
        reveal(table_sorted);
        reveal(table_rank);
    }
    assert(order_facts(145)) by {
        reveal(order_facts);
        reveal(table_len);
        reveal(table_code);
        reveal(table_last);
        reveal(table_group);
        reveal(table_parent);
        reveal(table_sorted);
        reveal(table_rank);
    }
    assert(order_facts(146)) by {
        reveal(order_facts);
        reveal(table_len);
        reveal(table_code);
        reveal(table_last);
        reveal(table_group);
        reveal(table_parent);
        reveal(table_sorted);
        reveal(table_rank);
    }
    assert(order_facts(147)) by {
        reveal(order_facts);
        reveal(table_len);
        reveal(table_code);
        reveal(table_last);
        reveal(table_group);
        reveal(table_parent);
        reveal(table_sorted);
        reveal(table_rank);
    }
    assert(order_facts(148)) by {
        reveal(order_facts);
        reveal(table_len);
        reveal(table_code);
        reveal(table_last);
        reveal(table_group);
        reveal(table_parent);
        reveal(table_sorted);
        reveal(table_rank);
    }
    assert(order_facts(149)) by {
        reveal(order_facts);
        reveal(table_len);
        reveal(table_code);
        reveal(table_last);
        reveal(table_group);
        reveal(table_parent);
        reveal(table_sorted);
        reveal(table_rank);
    }
    assert(order_facts(150)) by {
        reveal(order_facts);
        reveal(table_len);
        reveal(table_code);
        reveal(table_last);
        reveal(table_group);
        reveal(table_parent);
        reveal(table_sorted);
        reveal(table_rank);
    }
    assert(order_facts(151)) by {
        reveal(order_facts);
        reveal(table_len);
        reveal(table_code);
        reveal(table_last);
        reveal(table_group);
        reveal(table_parent);
        reveal(table_sorted);
        reveal(table_rank);
    }
    assert(order_facts(152)) by {
        reveal(order_facts);
        reveal(table_len);
        reveal(table_code);
        reveal(table_last);
        reveal(table_group);
        reveal(table_parent);
        reveal(table_sorted);
        reveal(table_rank);
    }
    assert(order_facts(153)) by {
        reveal(order_facts);
        reveal(table_len);
        reveal(table_code);
        reveal(table_last);
        reveal(table_group);
        reveal(table_parent);
        reveal(table_sorted);
        reveal(table_rank);
    }
    assert(order_facts(154)) by {
        reveal(order_facts);
        reveal(table_len);
        reveal(table_code);
        reveal(table_last);
        reveal(table_group);
        reveal(table_parent);
        reveal(table_sorted);
        reveal(table_rank);
    }
    assert(order_facts(155)) by {
        reveal(order_facts);
        reveal(table_len);
        reveal(table_code);
        reveal(table_last);
        reveal(table_group);
        reveal(table_parent);
        reveal(table_sorted);
        reveal(table_rank);
    }
    assert(order_facts(156)) by {
        reveal(order_facts);
        reveal(table_len);
        reveal(table_code);
        reveal(table_last);
        reveal(table_group);
        reveal(table_parent);
        reveal(table_sorted);
        reveal(table_rank);
    }
    assert(order_facts(157)) by {
        reveal(order_facts);
        reveal(table_len);
        reveal(table_code);
        reveal(table_last);
        reveal(table_group);
        reveal(table_parent);
        reveal(table_sorted);
        reveal(table_rank);
    }
    assert(order_facts(158)) by {
        reveal(order_facts);
        reveal(table_len);
        reveal(table_code);
        reveal(table_last);
        reveal(table_group);
        reveal(table_parent);
        reveal(table_sorted);
        reveal(table_rank);
    }
    assert(order_facts(159)) by {
        reveal(order_facts);
        reveal(table_len);
        reveal(table_code);
        reveal(table_last);
        reveal(table_group);
        reveal(table_parent);
        reveal(table_sorted);
        reveal(table_rank);
    }
    assert(order_facts(160)) by {
        reveal(order_facts);
        reveal(table_len);
        reveal(table_code);
        reveal(table_last);
        reveal(table_group);
        reveal(table_parent);
        reveal(table_sorted);
        reveal(table_rank);
    }
}

/// The order facts of the entries and places from 161 to 183.
#[verifier::spinoff_prover]
proof fn lemma_order_161_184()
    ensures
        forall|k: int| 161 <= k < 184 ==> #[trigger] order_facts(k),
{
    assert(order_facts(161)) by {
        reveal(order_facts);
        reveal(table_len);
        reveal(table_code);
        reveal(table_last);
        reveal(table_group);
        reveal(table_parent);
        reveal(table_sorted);
        reveal(table_rank);
    }
    assert(order_facts(162)) by {
        reveal(order_facts);
        reveal(table_len);
        reveal(table_code);
        reveal(table_last);
        reveal(table_group);
        reveal(table_parent);
        reveal(table_sorted);
        reveal(table_rank);
    }
    assert(order_facts(163)) by {
        reveal(order_facts);
        reveal(table_len);
        reveal(table_code);
        reveal(table_last);
        reveal(table_group);
        reveal(table_parent);
        reveal(table_sorted);
        reveal(table_rank);
    }
    assert(order_facts(164)) by {
        reveal(order_facts);
        reveal(table_len);
        reveal(table_code);
        reveal(table_last);
        reveal(table_group);
        reveal(table_parent);
        reveal(table_sorted);
        reveal(table_rank);
    }
    assert(order_facts(165)) by {
        reveal(order_facts);
        reveal(table_len);
        reveal(table_code);
        reveal(table_last);
        reveal(table_group);
        reveal(table_parent);
        reveal(table_sorted);
        reveal(table_rank);
    }
    assert(order_facts(166)) by {
        reveal(order_facts);
        reveal(table_len);
        reveal(table_code);
        reveal(table_last);
        reveal(table_group);
        reveal(table_parent);
        reveal(table_sorted);
        reveal(table_rank);
    }
    assert(order_facts(167)) by {
        reveal(order_facts);
        reveal(table_len);
        reveal(table_code);
        reveal(table_last);
        reveal(table_group);
        reveal(table_parent);
        reveal(table_sorted);
        reveal(table_rank);
    }
    assert(order_facts(168)) by {
        reveal(order_facts);
        reveal(table_len);
        reveal(table_code);
        reveal(table_last);
        reveal(table_group);
        reveal(table_parent);
        reveal(table_sorted);
        reveal(table_rank);
    }
    assert(order_facts(169)) by {
        reveal(order_facts);
        reveal(table_len);
        reveal(table_code);
        reveal(table_last);
        reveal(table_group);
        reveal(table_parent);
        reveal(table_sorted);
        reveal(table_rank);
    }
    assert(order_facts(170)) by {
        reveal(order_facts);
        reveal(table_len);
        reveal(table_code);
        reveal(table_last);
        reveal(table_group);
        reveal(table_parent);
        reveal(table_sorted);
        reveal(table_rank);
    }
    assert(order_facts(171)) by {
        reveal(order_facts);
        reveal(table_len);
        reveal(table_code);
        reveal(table_last);
        reveal(table_group);
        reveal(table_parent);
        reveal(table_sorted);
        reveal(table_rank);
    }
    assert(order_facts(172)) by {
        reveal(order_facts);
        reveal(table_len);
        reveal(table_code);
        reveal(table_last);
        reveal(table_group);
        reveal(table_parent);
        reveal(table_sorted);
        reveal(table_rank);
    }
    assert(order_facts(173)) by {
        reveal(order_facts);
        reveal(table_len);
        reveal(table_code);
        reveal(table_last);
        reveal(table_group);
        reveal(table_parent);
        reveal(table_sorted);
        reveal(table_rank);
    }
    assert(order_facts(174)) by {
        reveal(order_facts);
        reveal(table_len);
        reveal(table_code);
        reveal(table_last);
        reveal(table_group);
        reveal(table_parent);
        reveal(table_sorted);
        reveal(table_rank);
    }
    assert(order_facts(175)) by {
        reveal(order_facts);
        reveal(table_len);
        reveal(table_code);
        reveal(table_last);
        reveal(table_group);
        reveal(table_parent);
        reveal(table_sorted);
        reveal(table_rank);
    }
    assert(order_facts(176)) by {
        reveal(order_facts);
        reveal(table_len);
        reveal(table_code);
        reveal(table_last);
        reveal(table_group);
        reveal(table_parent);
        reveal(table_sorted);
        reveal(table_rank);
    }
    assert(order_facts(177)) by {
        reveal(order_facts);
        reveal(table_len);
        reveal(table_code);
        reveal(table_last);
        reveal(table_group);
        reveal(table_parent);
        reveal(table_sorted);
        reveal(table_rank);
    }
    assert(order_facts(178)) by {
        reveal(order_facts);
        reveal(table_len);
        reveal(table_code);
        reveal(table_last);
        reveal(table_group);
        reveal(table_parent);
        reveal(table_sorted);
        reveal(table_rank);
    }
    assert(order_facts(179)) by {
        reveal(order_facts);
        reveal(table_len);
        reveal(table_code);
        reveal(table_last);
        reveal(table_group);
        reveal(table_parent);
        reveal(table_sorted);
        reveal(table_rank);
    }
    assert(order_facts(180)) by {
        reveal(order_facts);
        reveal(table_len);
        reveal(table_code);
        reveal(table_last);
        reveal(table_group);
        reveal(table_parent);
        reveal(table_sorted);
        reveal(table_rank);
    }
    assert(order_facts(181)) by {
        reveal(order_facts);
        reveal(table_len);
        reveal(table_code);
        reveal(table_last);
        reveal(table_group);
        reveal(table_parent);
        reveal(table_sorted);
        reveal(table_rank);
    }
    assert(order_facts(182)) by {
        reveal(order_facts);
        reveal(table_len);
        reveal(table_code);
        reveal(table_last);
        reveal(table_group);
        reveal(table_parent);
        reveal(table_sorted);
        reveal(table_rank);
    }
    assert(order_facts(183)) by {
        reveal(order_facts);
        reveal(table_len);
        reveal(table_code);
        reveal(table_last);
        reveal(table_group);
        reveal(table_parent);
        reveal(table_sorted);
        reveal(table_rank);
    }
}

/// The order facts of the entries and places from 184 to 206.
#[verifier::spinoff_prover]
proof fn lemma_order_184_207()
    ensures
        forall|k: int| 184 <= k < 207 ==> #[trigger] order_facts(k),
{
    assert(order_facts(184)) by {
        reveal(order_facts);
        reveal(table_len);
        reveal(table_code);
        reveal(table_last);
        reveal(table_group);
        reveal(table_parent);
        reveal(table_sorted);
        reveal(table_rank);
    }
    assert(order_facts(185)) by {
        reveal(order_facts);
        reveal(table_len);
        reveal(table_code);
        reveal(table_last);
        reveal(table_group);
        reveal(table_parent);
        reveal(table_sorted);
        reveal(table_rank);
    }
    assert(order_facts(186)) by {
        reveal(order_facts);
        reveal(table_len);
        reveal(table_code);
        reveal(table_last);
        reveal(table_group);
        reveal(table_parent);
        reveal(table_sorted);
        reveal(table_rank);
    }
    assert(order_facts(187)) by {
        reveal(order_facts);
        reveal(table_len);
        reveal(table_code);
        reveal(table_last);
        reveal(table_group);
        reveal(table_parent);
        reveal(table_sorted);
        reveal(table_rank);
    }
    assert(order_facts(188)) by {
        reveal(order_facts);
        reveal(table_len);
        reveal(table_code);
        reveal(table_last);
        reveal(table_group);
        reveal(table_parent);
        reveal(table_sorted);
        reveal(table_rank);
    }
    assert(order_facts(189)) by {
        reveal(order_facts);
        reveal(table_len);
        reveal(table_code);
        reveal(table_last);
        reveal(table_group);
        reveal(table_parent);
        reveal(table_sorted);
        reveal(table_rank);
    }
    assert(order_facts(190)) by {
        reveal(order_facts);
        reveal(table_len);
        reveal(table_code);
        reveal(table_last);
        reveal(table_group);
        reveal(table_parent);
        reveal(table_sorted);
        reveal(table_rank);
    }
    assert(order_facts(191)) by {
        reveal(order_facts);
        reveal(table_len);
        reveal(table_code);
        reveal(table_last);
        reveal(table_group);
        reveal(table_parent);
        reveal(table_sorted);
        reveal(table_rank);
    }
    assert(order_facts(192)) by {
        reveal(order_facts);
        reveal(table_len);
        reveal(table_code);
        reveal(table_last);
        reveal(table_group);
        reveal(table_parent);
        reveal(table_sorted);
        reveal(table_rank);
    }
    assert(order_facts(193)) by {
        reveal(order_facts);
        reveal(table_len);
        reveal(table_code);
        reveal(table_last);
        reveal(table_group);
        reveal(table_parent);
        reveal(table_sorted);
        reveal(table_rank);
    }
    assert(order_facts(194)) by {
        reveal(order_facts);
        reveal(table_len);
        reveal(table_code);
        reveal(table_last);
        reveal(table_group);
        reveal(table_parent);
        reveal(table_sorted);
        reveal(table_rank);
    }
    assert(order_facts(195)) by {
        reveal(order_facts);
        reveal(table_len);
        reveal(table_code);
        reveal(table_last);
        reveal(table_group);
        reveal(table_parent);
        reveal(table_sorted);
        reveal(table_rank);
    }
    assert(order_facts(196)) by {
        reveal(order_facts);
        reveal(table_len);
        reveal(table_code);
        reveal(table_last);
        reveal(table_group);
        reveal(table_parent);
        reveal(table_sorted);
        reveal(table_rank);
    }
    assert(order_facts(197)) by {
        reveal(order_facts);
        reveal(table_len);
        reveal(table_code);
        reveal(table_last);
        reveal(table_group);
        reveal(table_parent);
        reveal(table_sorted);
        reveal(table_rank);
    }
    assert(order_facts(198)) by {
        reveal(order_facts);
        reveal(table_len);
        reveal(table_code);
        reveal(table_last);
        reveal(table_group);
        reveal(table_parent);
        reveal(table_sorted);
        reveal(table_rank);
    }
    assert(order_facts(199)) by {
        reveal(order_facts);
        reveal(table_len);
        reveal(table_code);
        reveal(table_last);
        reveal(table_group);
        reveal(table_parent);
        reveal(table_sorted);
        reveal(table_rank);
    }
    assert(order_facts(200)) by {
        reveal(order_facts);
        reveal(table_len);
        reveal(table_code);
        reveal(table_last);
        reveal(table_group);
        reveal(table_parent);
        reveal(table_sorted);
        reveal(table_rank);
    }
    assert(order_facts(201)) by {
        reveal(order_facts);
        reveal(table_len);
        reveal(table_code);
        reveal(table_last);
        reveal(table_group);
        reveal(table_parent);
        reveal(table_sorted);
        reveal(table_rank);
    }
    assert(order_facts(202)) by {
        reveal(order_facts);
        reveal(table_len);
        reveal(table_code);
        reveal(table_last);
        reveal(table_group);
        reveal(table_parent);
        reveal(table_sorted);
        reveal(table_rank);
    }
    assert(order_facts(203)) by {
        reveal(order_facts);
        reveal(table_len);
        reveal(table_code);
        reveal(table_last);
        reveal(table_group);
        reveal(table_parent);
        reveal(table_sorted);
        reveal(table_rank);
    }
    assert(order_facts(204)) by {
        reveal(order_facts);
        reveal(table_len);
        reveal(table_code);
        reveal(table_last);
        reveal(table_group);
        reveal(table_parent);
        reveal(table_sorted);
        reveal(table_rank);
    }
    assert(order_facts(205)) by {
        reveal(order_facts);
        reveal(table_len);
        reveal(table_code);
        reveal(table_last);
        reveal(table_group);
        reveal(table_parent);
        reveal(table_sorted);
        reveal(table_rank);
    }
    assert(order_facts(206)) by {
        reveal(order_facts);
        reveal(table_len);
        reveal(table_code);
        reveal(table_last);
        reveal(table_group);
        reveal(table_parent);
        reveal(table_sorted);
        reveal(table_rank);
    }
}

/// The order facts of the entries and places from 207 to 229.
#[verifier::spinoff_prover]
proof fn lemma_order_207_230()
    ensures
        forall|k: int| 207 <= k < 230 ==> #[trigger] order_facts(k),
{
    assert(order_facts(207)) by {
        reveal(order_facts);
        reveal(table_len);
        reveal(table_code);
        reveal(table_last);
        reveal(table_group);
        reveal(table_parent);
        reveal(table_sorted);
        reveal(table_rank);
    }
    assert(order_facts(208)) by {
        reveal(order_facts);
        reveal(table_len);
        reveal(table_code);
        reveal(table_last);
        reveal(table_group);
        reveal(table_parent);
        reveal(table_sorted);
        reveal(table_rank);
    }
    assert(order_facts(209)) by {
        reveal(order_facts);
        reveal(table_len);
        reveal(table_code);
        reveal(table_last);
        reveal(table_group);
        reveal(table_parent);
        reveal(table_sorted);
        reveal(table_rank);
    }
    assert(order_facts(210)) by {
        reveal(order_facts);
        reveal(table_len);
        reveal(table_code);
        reveal(table_last);
        reveal(table_group);
        reveal(table_parent);
        reveal(table_sorted);
        reveal(table_rank);
    }
    assert(order_facts(211)) by {
        reveal(order_facts);
        reveal(table_len);
        reveal(table_code);
        reveal(table_last);
        reveal(table_group);
        reveal(table_parent);
        reveal(table_sorted);
        reveal(table_rank);
    }
    assert(order_facts(212)) by {
        reveal(order_facts);
        reveal(table_len);
        reveal(table_code);
        reveal(table_last);
        reveal(table_group);
        reveal(table_parent);
        reveal(table_sorted);
        reveal(table_rank);
    }
    assert(order_facts(213)) by {
        reveal(order_facts);
        reveal(table_len);
        reveal(table_code);
        reveal(table_last);
        reveal(table_group);
        reveal(table_parent);
        reveal(table_sorted);
        reveal(table_rank);
    }
    assert(order_facts(214)) by {
        reveal(order_facts);
        reveal(table_len);
        reveal(table_code);
        reveal(table_last);
        reveal(table_group);
        reveal(table_parent);
        reveal(table_sorted);
        reveal(table_rank);
    }
    assert(order_facts(215)) by {
        reveal(order_facts);
        reveal(table_len);
        reveal(table_code);
        reveal(table_last);
        reveal(table_group);
        reveal(table_parent);
        reveal(table_sorted);
        reveal(table_rank);
    }
    assert(order_facts(216)) by {
        reveal(order_facts);
        reveal(table_len);
        reveal(table_code);
        reveal(table_last);
        reveal(table_group);
        reveal(table_parent);
        reveal(table_sorted);
        reveal(table_rank);
    }
    assert(order_facts(217)) by {
        reveal(order_facts);
        reveal(table_len);
        reveal(table_code);
        reveal(table_last);
        reveal(table_group);
        reveal(table_parent);
        reveal(table_sorted);
        reveal(table_rank);
    }
    assert(order_facts(218)) by {
        reveal(order_facts);
        reveal(table_len);
        reveal(table_code);
        reveal(table_last);
        reveal(table_group);
        reveal(table_parent);
        reveal(table_sorted);
        reveal(table_rank);
    }
    assert(order_facts(219)) by {
        reveal(order_facts);
        reveal(table_len);
        reveal(table_code);
        reveal(table_last);
        reveal(table_group);
        reveal(table_parent);
        reveal(table_sorted);
        reveal(table_rank);
    }
    assert(order_facts(220)) by {
        reveal(order_facts);
        reveal(table_len);
        reveal(table_code);
        reveal(table_last);
        reveal(table_group);
        reveal(table_parent);
        reveal(table_sorted);
        reveal(table_rank);
    }
    assert(order_facts(221)) by {
        reveal(order_facts);
        reveal(table_len);
        reveal(table_code);
        reveal(table_last);
        reveal(table_group);
        reveal(table_parent);
        reveal(table_sorted);
        reveal(table_rank);
    }
    assert(order_facts(222)) by {
        reveal(order_facts);
        reveal(table_len);
        reveal(table_code);
        reveal(table_last);
        reveal(table_group);
        reveal(table_parent);
        reveal(table_sorted);
        reveal(table_rank);
    }
    assert(order_facts(223)) by {
        reveal(order_facts);
        reveal(table_len);
        reveal(table_code);
        reveal(table_last);
        reveal(table_group);
        reveal(table_parent);
        reveal(table_sorted);
        reveal(table_rank);
    }
    assert(order_facts(224)) by {
        reveal(order_facts);
        reveal(table_len);
        reveal(table_code);
        reveal(table_last);
        reveal(table_group);
        reveal(table_parent);
        reveal(table_sorted);
        reveal(table_rank);
    }
    assert(order_facts(225)) by {
        reveal(order_facts);
        reveal(table_len);
        reveal(table_code);
        reveal(table_last);
        reveal(table_group);
        reveal(table_parent);
        reveal(table_sorted);
        reveal(table_rank);
    }
    assert(order_facts(226)) by {
        reveal(order_facts);
        reveal(table_len);
        reveal(table_code);
        reveal(table_last);
        reveal(table_group);
        reveal(table_parent);
        reveal(table_sorted);
        reveal(table_rank);
    }
    assert(order_facts(227)) by {
        reveal(order_facts);
        reveal(table_len);
        reveal(table_code);
        reveal(table_last);
        reveal(table_group);
        reveal(table_parent);
        reveal(table_sorted);
        reveal(table_rank);
    }
    assert(order_facts(228)) by {
        reveal(order_facts);
        reveal(table_len);
        reveal(table_code);
        reveal(table_last);
        reveal(table_group);
        reveal(table_parent);
        reveal(table_sorted);
        reveal(table_rank);
    }
    assert(order_facts(229)) by {
        reveal(order_facts);
        reveal(table_len);
        reveal(table_code);
        reveal(table_last);
        reveal(table_group);
        reveal(table_parent);
        reveal(table_sorted);
        reveal(table_rank);
    }
}


/// Codes grow along the sorted order.
proof fn lemma_sorted_increase(m1: int, m2: int)
    requires
        0 <= m1 < m2 < 230,
        forall|k: int| 0 <= k < 230 ==> #[trigger] order_facts(k),
    ensures
        table_code(table_sorted(m1)) < table_code(table_sorted(m2)),
    decreases m2 - m1,
{
    assert(order_facts(m2 - 1));
    reveal(order_facts);
    if m1 < m2 - 1 {
        lemma_sorted_increase(m1, m2 - 1);
    }
}

/// Different entries have different key sequences.
proof fn lemma_entries_distinct(t: Seq<TableEntry>, a: int, b: int)
    requires
        t.len() == 230,
        forall|k: int| 0 <= k < 230 ==> #[trigger] entry_matches(t, k),
        forall|k: int| 0 <= k < 230 ==> #[trigger] order_facts(k),
        0 <= a < 230,
        0 <= b < 230,
        a != b,
    ensures
        t[a].keys != t[b].keys,
{
    assert(entry_matches(t, a));
    assert(entry_matches(t, b));
    assert(order_facts(a));
    assert(order_facts(b));
    reveal(entry_matches);
    reveal(entry_fits_data);
    reveal(order_facts);
    let ra = table_rank(a);
    let rb = table_rank(b);
    if ra < rb {
        lemma_sorted_increase(ra, rb);
    } else if rb < ra {
        lemma_sorted_increase(rb, ra);
    }
}

/// The entry of the keys before the last of entry `k` comes earlier and has
/// children.
proof fn lemma_parent(t: Seq<TableEntry>, k: int)
    requires
        t.len() == 230,
        forall|j: int| 0 <= j < 230 ==> #[trigger] entry_matches(t, j),
        forall|j: int| 0 <= j < 230 ==> #[trigger] order_facts(j),
        0 <= k < 230,
        t[k].keys.len() > 1,
    ensures
        0 <= table_parent(k) < k,
        t[table_parent(k)].keys == t[k].keys.drop_last(),
        !(t[table_parent(k)].kind is Action),
{
    let p = table_parent(k);
    assert(entry_matches(t, k));
    assert(order_facts(k));
    reveal(entry_matches);
    reveal(entry_fits_data);
    reveal(order_facts);
    assert(entry_matches(t, p));
    let s = t[k].keys;
    assert(key_code(s) == key_code(s.drop_last()) * code_base() + key_number(s.last()) + 1);
    lemma_key_code_sign(s.drop_last());
    lemma_key_code_sign(t[p].keys);
    lemma_key_number(s.last(), s.last());
    lemma_digits(
        key_code(s.drop_last()),
        key_number(s.last()) + 1,
        key_code(t[p].keys),
        key_number(s.last()) + 1,
        code_base(),
    );
    lemma_key_code_injective(s.drop_last(), t[p].keys);
}

/// Each first part of the keys of entry `k` is the keys of an entry at or
/// before it.
proof fn lemma_ancestor(t: Seq<TableEntry>, k: int, n: int)
    requires
        t.len() == 230,
        forall|j: int| 0 <= j < 230 ==> #[trigger] entry_matches(t, j),
        forall|j: int| 0 <= j < 230 ==> #[trigger] order_facts(j),
        0 <= k < 230,
        1 <= n <= t[k].keys.len(),
    ensures
        exists|i: int| 0 <= i <= k && t[i].keys == t[k].keys.take(n),
    decreases k,
{
    if n == t[k].keys.len() {
        assert(t[k].keys.take(n) =~= t[k].keys);
    } else {
        lemma_parent(t, k);
        let p = table_parent(k);
        lemma_ancestor(t, p, n);
        let i = choose|i: int| 0 <= i <= p && t[i].keys == t[p].keys.take(n);
        assert(t[p].keys.take(n) =~= t[k].keys.take(n));
    }
}

/// A table that the table data describes is in order.
proof fn lemma_in_order_from_facts(t: Seq<TableEntry>)
    requires
        t.len() == 230,
        forall|j: int| 0 <= j < 230 ==> #[trigger] entry_matches(t, j),
        forall|j: int| 0 <= j < 230 ==> #[trigger] order_facts(j),
    ensures
        keys_in_order(t),
{
    assert forall|k: int| 0 <= k < t.len() implies (#[trigger] t[k]).keys.len() > 0 by {
        assert(entry_matches(t, k));
        assert(order_facts(k));
        reveal(entry_matches);
        reveal(entry_fits_data);
        reveal(order_facts);
    }
    assert forall|k: int| 0 <= k < t.len() && (#[trigger] t[k]).keys.len() > 1 implies exists|i: int|
        0 <= i < k && (#[trigger] t[i]).keys == t[k].keys.drop_last() && !(t[i].kind is Action) by {
        lemma_parent(t, k);
        let p = table_parent(k);
        assert(t[p].keys == t[k].keys.drop_last());
    }
    assert forall|k: int, j: int| 0 <= k < j < t.len() implies !is_key_prefix(
        #[trigger] t[j].keys,
        #[trigger] t[k].keys,
    ) by {
        if is_key_prefix(t[j].keys, t[k].keys) {
            assert(t[j].keys.len() > 0) by {
                assert(entry_matches(t, j));
                assert(order_facts(j));
                reveal(entry_matches);
                reveal(entry_fits_data);
                reveal(order_facts);
            }
            lemma_ancestor(t, k, t[j].keys.len() as int);
            let i = choose|i: int| 0 <= i <= k && t[i].keys == t[k].keys.take(t[j].keys.len() as int);
            lemma_entries_distinct(t, i, j);
        }
    }
}

/// The binding table's key sequences are in order: each has keys, each below
/// the root comes after an entry with children for the keys before its last,
/// and none is the keys of an earlier entry or their first part.
pub proof fn lemma_binding_table_in_order()
    ensures
        keys_in_order(binding_table()),
{
    lemma_part_1_matches();
    lemma_part_2_matches();
    lemma_part_3_matches();
    lemma_part_4_matches();
    lemma_part_5_matches();
    lemma_part_6_matches();
    lemma_part_7_matches();
    lemma_part_8_matches();
    lemma_part_9_matches();
    lemma_part_10_matches();
    lemma_part_11_matches();
    lemma_part_12_matches();
    lemma_order_0_23();
    lemma_order_23_46();
    lemma_order_46_69();
    lemma_order_69_92();
    lemma_order_92_115();
    lemma_order_115_138();
    lemma_order_138_161();
    lemma_order_161_184();
    lemma_order_184_207();
    lemma_order_207_230();
    lemma_in_order_from_facts(binding_table());
}

} // verus!
