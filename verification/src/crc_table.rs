//! The lookup table of the checksum.

use vstd::prelude::*;
use crate::crc::crc16_shift8;

verus! {

/// Remainders of the 256 possible high bytes: entry `i` is the register that
/// results from `i << 8` after eight shifts.
pub const CRC16_CCITT_TABLE: [u16; 256] = [
    0x0000, 0x1021, 0x2042, 0x3063, 0x4084, 0x50a5, 0x60c6, 0x70e7,
    0x8108, 0x9129, 0xa14a, 0xb16b, 0xc18c, 0xd1ad, 0xe1ce, 0xf1ef,
    0x1231, 0x0210, 0x3273, 0x2252, 0x52b5, 0x4294, 0x72f7, 0x62d6,
    0x9339, 0x8318, 0xb37b, 0xa35a, 0xd3bd, 0xc39c, 0xf3ff, 0xe3de,
    0x2462, 0x3443, 0x0420, 0x1401, 0x64e6, 0x74c7, 0x44a4, 0x5485,
    0xa56a, 0xb54b, 0x8528, 0x9509, 0xe5ee, 0xf5cf, 0xc5ac, 0xd58d,
    0x3653, 0x2672, 0x1611, 0x0630, 0x76d7, 0x66f6, 0x5695, 0x46b4,
    0xb75b, 0xa77a, 0x9719, 0x8738, 0xf7df, 0xe7fe, 0xd79d, 0xc7bc,
    0x48c4, 0x58e5, 0x6886, 0x78a7, 0x0840, 0x1861, 0x2802, 0x3823,
    0xc9cc, 0xd9ed, 0xe98e, 0xf9af, 0x8948, 0x9969, 0xa90a, 0xb92b,
    0x5af5, 0x4ad4, 0x7ab7, 0x6a96, 0x1a71, 0x0a50, 0x3a33, 0x2a12,
    0xdbfd, 0xcbdc, 0xfbbf, 0xeb9e, 0x9b79, 0x8b58, 0xbb3b, 0xab1a,
    0x6ca6, 0x7c87, 0x4ce4, 0x5cc5, 0x2c22, 0x3c03, 0x0c60, 0x1c41,
    0xedae, 0xfd8f, 0xcdec, 0xddcd, 0xad2a, 0xbd0b, 0x8d68, 0x9d49,
    0x7e97, 0x6eb6, 0x5ed5, 0x4ef4, 0x3e13, 0x2e32, 0x1e51, 0x0e70,
    0xff9f, 0xefbe, 0xdfdd, 0xcffc, 0xbf1b, 0xaf3a, 0x9f59, 0x8f78,
    0x9188, 0x81a9, 0xb1ca, 0xa1eb, 0xd10c, 0xc12d, 0xf14e, 0xe16f,
    0x1080, 0x00a1, 0x30c2, 0x20e3, 0x5004, 0x4025, 0x7046, 0x6067,
    0x83b9, 0x9398, 0xa3fb, 0xb3da, 0xc33d, 0xd31c, 0xe37f, 0xf35e,
    0x02b1, 0x1290, 0x22f3, 0x32d2, 0x4235, 0x5214, 0x6277, 0x7256,
    0xb5ea, 0xa5cb, 0x95a8, 0x8589, 0xf56e, 0xe54f, 0xd52c, 0xc50d,
    0x34e2, 0x24c3, 0x14a0, 0x0481, 0x7466, 0x6447, 0x5424, 0x4405,
    0xa7db, 0xb7fa, 0x8799, 0x97b8, 0xe75f, 0xf77e, 0xc71d, 0xd73c,
    0x26d3, 0x36f2, 0x0691, 0x16b0, 0x6657, 0x7676, 0x4615, 0x5634,
    0xd94c, 0xc96d, 0xf90e, 0xe92f, 0x99c8, 0x89e9, 0xb98a, 0xa9ab,
    0x5844, 0x4865, 0x7806, 0x6827, 0x18c0, 0x08e1, 0x3882, 0x28a3,
    0xcb7d, 0xdb5c, 0xeb3f, 0xfb1e, 0x8bf9, 0x9bd8, 0xabbb, 0xbb9a,
    0x4a75, 0x5a54, 0x6a37, 0x7a16, 0x0af1, 0x1ad0, 0x2ab3, 0x3a92,
    0xfd2e, 0xed0f, 0xdd6c, 0xcd4d, 0xbdaa, 0xad8b, 0x9de8, 0x8dc9,
    0x7c26, 0x6c07, 0x5c64, 0x4c45, 0x3ca2, 0x2c83, 0x1ce0, 0x0cc1,
    0xef1f, 0xff3e, 0xcf5d, 0xdf7c, 0xaf9b, 0xbfba, 0x8fd9, 0x9ff8,
    0x6e17, 0x7e36, 0x4e55, 0x5e74, 0x2e93, 0x3eb2, 0x0ed1, 0x1ef0,
];

/// Every entry of the table is the remainder that its index leaves when it
/// stands in the high byte of the register.
pub proof fn lemma_table_entry(index: u16)
    requires
        index < 256,
    ensures
        CRC16_CCITT_TABLE@[index as int] == crc16_shift8(index << 8),
{
    let entry = CRC16_CCITT_TABLE@[index as int];
    // The bit-vector prover does not read the table: each entry is restated
    // for it, and checked against the table on the way in.
    assert(entry == crc16_shift8(index << 8)) by (bit_vector)
        requires
            index < 256,
            index == 0 ==> entry == 0x0000,
            index == 1 ==> entry == 0x1021,
            index == 2 ==> entry == 0x2042,
            index == 3 ==> entry == 0x3063,
            index == 4 ==> entry == 0x4084,
            index == 5 ==> entry == 0x50a5,
            index == 6 ==> entry == 0x60c6,
            index == 7 ==> entry == 0x70e7,
            index == 8 ==> entry == 0x8108,
            index == 9 ==> entry == 0x9129,
            index == 10 ==> entry == 0xa14a,
            index == 11 ==> entry == 0xb16b,
            index == 12 ==> entry == 0xc18c,
            index == 13 ==> entry == 0xd1ad,
            index == 14 ==> entry == 0xe1ce,
            index == 15 ==> entry == 0xf1ef,
            index == 16 ==> entry == 0x1231,
            index == 17 ==> entry == 0x0210,
            index == 18 ==> entry == 0x3273,
            index == 19 ==> entry == 0x2252,
            index == 20 ==> entry == 0x52b5,
            index == 21 ==> entry == 0x4294,
            index == 22 ==> entry == 0x72f7,
            index == 23 ==> entry == 0x62d6,
            index == 24 ==> entry == 0x9339,
            index == 25 ==> entry == 0x8318,
            index == 26 ==> entry == 0xb37b,
            index == 27 ==> entry == 0xa35a,
            index == 28 ==> entry == 0xd3bd,
            index == 29 ==> entry == 0xc39c,
            index == 30 ==> entry == 0xf3ff,
            index == 31 ==> entry == 0xe3de,
            index == 32 ==> entry == 0x2462,
            index == 33 ==> entry == 0x3443,
            index == 34 ==> entry == 0x0420,
            index == 35 ==> entry == 0x1401,
            index == 36 ==> entry == 0x64e6,
            index == 37 ==> entry == 0x74c7,
            index == 38 ==> entry == 0x44a4,
            index == 39 ==> entry == 0x5485,
            index == 40 ==> entry == 0xa56a,
            index == 41 ==> entry == 0xb54b,
            index == 42 ==> entry == 0x8528,
            index == 43 ==> entry == 0x9509,
            index == 44 ==> entry == 0xe5ee,
            index == 45 ==> entry == 0xf5cf,
            index == 46 ==> entry == 0xc5ac,
            index == 47 ==> entry == 0xd58d,
            index == 48 ==> entry == 0x3653,
            index == 49 ==> entry == 0x2672,
            index == 50 ==> entry == 0x1611,
            index == 51 ==> entry == 0x0630,
            index == 52 ==> entry == 0x76d7,
            index == 53 ==> entry == 0x66f6,
            index == 54 ==> entry == 0x5695,
            index == 55 ==> entry == 0x46b4,
            index == 56 ==> entry == 0xb75b,
            index == 57 ==> entry == 0xa77a,
            index == 58 ==> entry == 0x9719,
            index == 59 ==> entry == 0x8738,
            index == 60 ==> entry == 0xf7df,
            index == 61 ==> entry == 0xe7fe,
            index == 62 ==> entry == 0xd79d,
            index == 63 ==> entry == 0xc7bc,
            index == 64 ==> entry == 0x48c4,
            index == 65 ==> entry == 0x58e5,
            index == 66 ==> entry == 0x6886,
            index == 67 ==> entry == 0x78a7,
            index == 68 ==> entry == 0x0840,
            index == 69 ==> entry == 0x1861,
            index == 70 ==> entry == 0x2802,
            index == 71 ==> entry == 0x3823,
            index == 72 ==> entry == 0xc9cc,
            index == 73 ==> entry == 0xd9ed,
            index == 74 ==> entry == 0xe98e,
            index == 75 ==> entry == 0xf9af,
            index == 76 ==> entry == 0x8948,
            index == 77 ==> entry == 0x9969,
            index == 78 ==> entry == 0xa90a,
            index == 79 ==> entry == 0xb92b,
            index == 80 ==> entry == 0x5af5,
            index == 81 ==> entry == 0x4ad4,
            index == 82 ==> entry == 0x7ab7,
            index == 83 ==> entry == 0x6a96,
            index == 84 ==> entry == 0x1a71,
            index == 85 ==> entry == 0x0a50,
            index == 86 ==> entry == 0x3a33,
            index == 87 ==> entry == 0x2a12,
            index == 88 ==> entry == 0xdbfd,
            index == 89 ==> entry == 0xcbdc,
            index == 90 ==> entry == 0xfbbf,
            index == 91 ==> entry == 0xeb9e,
            index == 92 ==> entry == 0x9b79,
            index == 93 ==> entry == 0x8b58,
            index == 94 ==> entry == 0xbb3b,
            index == 95 ==> entry == 0xab1a,
            index == 96 ==> entry == 0x6ca6,
            index == 97 ==> entry == 0x7c87,
            index == 98 ==> entry == 0x4ce4,
            index == 99 ==> entry == 0x5cc5,
            index == 100 ==> entry == 0x2c22,
            index == 101 ==> entry == 0x3c03,
            index == 102 ==> entry == 0x0c60,
            index == 103 ==> entry == 0x1c41,
            index == 104 ==> entry == 0xedae,
            index == 105 ==> entry == 0xfd8f,
            index == 106 ==> entry == 0xcdec,
            index == 107 ==> entry == 0xddcd,
            index == 108 ==> entry == 0xad2a,
            index == 109 ==> entry == 0xbd0b,
            index == 110 ==> entry == 0x8d68,
            index == 111 ==> entry == 0x9d49,
            index == 112 ==> entry == 0x7e97,
            index == 113 ==> entry == 0x6eb6,
            index == 114 ==> entry == 0x5ed5,
            index == 115 ==> entry == 0x4ef4,
            index == 116 ==> entry == 0x3e13,
            index == 117 ==> entry == 0x2e32,
            index == 118 ==> entry == 0x1e51,
            index == 119 ==> entry == 0x0e70,
            index == 120 ==> entry == 0xff9f,
            index == 121 ==> entry == 0xefbe,
            index == 122 ==> entry == 0xdfdd,
            index == 123 ==> entry == 0xcffc,
            index == 124 ==> entry == 0xbf1b,
            index == 125 ==> entry == 0xaf3a,
            index == 126 ==> entry == 0x9f59,
            index == 127 ==> entry == 0x8f78,
            index == 128 ==> entry == 0x9188,
            index == 129 ==> entry == 0x81a9,
            index == 130 ==> entry == 0xb1ca,
            index == 131 ==> entry == 0xa1eb,
            index == 132 ==> entry == 0xd10c,
            index == 133 ==> entry == 0xc12d,
            index == 134 ==> entry == 0xf14e,
            index == 135 ==> entry == 0xe16f,
            index == 136 ==> entry == 0x1080,
            index == 137 ==> entry == 0x00a1,
            index == 138 ==> entry == 0x30c2,
            index == 139 ==> entry == 0x20e3,
            index == 140 ==> entry == 0x5004,
            index == 141 ==> entry == 0x4025,
            index == 142 ==> entry == 0x7046,
            index == 143 ==> entry == 0x6067,
            index == 144 ==> entry == 0x83b9,
            index == 145 ==> entry == 0x9398,
            index == 146 ==> entry == 0xa3fb,
            index == 147 ==> entry == 0xb3da,
            index == 148 ==> entry == 0xc33d,
            index == 149 ==> entry == 0xd31c,
            index == 150 ==> entry == 0xe37f,
            index == 151 ==> entry == 0xf35e,
            index == 152 ==> entry == 0x02b1,
            index == 153 ==> entry == 0x1290,
            index == 154 ==> entry == 0x22f3,
            index == 155 ==> entry == 0x32d2,
            index == 156 ==> entry == 0x4235,
            index == 157 ==> entry == 0x5214,
            index == 158 ==> entry == 0x6277,
            index == 159 ==> entry == 0x7256,
            index == 160 ==> entry == 0xb5ea,
            index == 161 ==> entry == 0xa5cb,
            index == 162 ==> entry == 0x95a8,
            index == 163 ==> entry == 0x8589,
            index == 164 ==> entry == 0xf56e,
            index == 165 ==> entry == 0xe54f,
            index == 166 ==> entry == 0xd52c,
            index == 167 ==> entry == 0xc50d,
            index == 168 ==> entry == 0x34e2,
            index == 169 ==> entry == 0x24c3,
            index == 170 ==> entry == 0x14a0,
            index == 171 ==> entry == 0x0481,
            index == 172 ==> entry == 0x7466,
            index == 173 ==> entry == 0x6447,
            index == 174 ==> entry == 0x5424,
            index == 175 ==> entry == 0x4405,
            index == 176 ==> entry == 0xa7db,
            index == 177 ==> entry == 0xb7fa,
            index == 178 ==> entry == 0x8799,
            index == 179 ==> entry == 0x97b8,
            index == 180 ==> entry == 0xe75f,
            index == 181 ==> entry == 0xf77e,
            index == 182 ==> entry == 0xc71d,
            index == 183 ==> entry == 0xd73c,
            index == 184 ==> entry == 0x26d3,
            index == 185 ==> entry == 0x36f2,
            index == 186 ==> entry == 0x0691,
            index == 187 ==> entry == 0x16b0,
            index == 188 ==> entry == 0x6657,
            index == 189 ==> entry == 0x7676,
            index == 190 ==> entry == 0x4615,
            index == 191 ==> entry == 0x5634,
            index == 192 ==> entry == 0xd94c,
            index == 193 ==> entry == 0xc96d,
            index == 194 ==> entry == 0xf90e,
            index == 195 ==> entry == 0xe92f,
            index == 196 ==> entry == 0x99c8,
            index == 197 ==> entry == 0x89e9,
            index == 198 ==> entry == 0xb98a,
            index == 199 ==> entry == 0xa9ab,
            index == 200 ==> entry == 0x5844,
            index == 201 ==> entry == 0x4865,
            index == 202 ==> entry == 0x7806,
            index == 203 ==> entry == 0x6827,
            index == 204 ==> entry == 0x18c0,
            index == 205 ==> entry == 0x08e1,
            index == 206 ==> entry == 0x3882,
            index == 207 ==> entry == 0x28a3,
            index == 208 ==> entry == 0xcb7d,
            index == 209 ==> entry == 0xdb5c,
            index == 210 ==> entry == 0xeb3f,
            index == 211 ==> entry == 0xfb1e,
            index == 212 ==> entry == 0x8bf9,
            index == 213 ==> entry == 0x9bd8,
            index == 214 ==> entry == 0xabbb,
            index == 215 ==> entry == 0xbb9a,
            index == 216 ==> entry == 0x4a75,
            index == 217 ==> entry == 0x5a54,
            index == 218 ==> entry == 0x6a37,
            index == 219 ==> entry == 0x7a16,
            index == 220 ==> entry == 0x0af1,
            index == 221 ==> entry == 0x1ad0,
            index == 222 ==> entry == 0x2ab3,
            index == 223 ==> entry == 0x3a92,
            index == 224 ==> entry == 0xfd2e,
            index == 225 ==> entry == 0xed0f,
            index == 226 ==> entry == 0xdd6c,
            index == 227 ==> entry == 0xcd4d,
            index == 228 ==> entry == 0xbdaa,
            index == 229 ==> entry == 0xad8b,
            index == 230 ==> entry == 0x9de8,
            index == 231 ==> entry == 0x8dc9,
            index == 232 ==> entry == 0x7c26,
            index == 233 ==> entry == 0x6c07,
            index == 234 ==> entry == 0x5c64,
            index == 235 ==> entry == 0x4c45,
            index == 236 ==> entry == 0x3ca2,
            index == 237 ==> entry == 0x2c83,
            index == 238 ==> entry == 0x1ce0,
            index == 239 ==> entry == 0x0cc1,
            index == 240 ==> entry == 0xef1f,
            index == 241 ==> entry == 0xff3e,
            index == 242 ==> entry == 0xcf5d,
            index == 243 ==> entry == 0xdf7c,
            index == 244 ==> entry == 0xaf9b,
            index == 245 ==> entry == 0xbfba,
            index == 246 ==> entry == 0x8fd9,
            index == 247 ==> entry == 0x9ff8,
            index == 248 ==> entry == 0x6e17,
            index == 249 ==> entry == 0x7e36,
            index == 250 ==> entry == 0x4e55,
            index == 251 ==> entry == 0x5e74,
            index == 252 ==> entry == 0x2e93,
            index == 253 ==> entry == 0x3eb2,
            index == 254 ==> entry == 0x0ed1,
            index == 255 ==> entry == 0x1ef0,
    ;
}

} // verus!
