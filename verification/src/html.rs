//! The HTML color names.
//!
//! Around 150 CSS/HTML color keywords, looked up in both directions: from a
//! case-insensitive name to its color, and from a color back to its
//! canonical name.

use vstd::prelude::*;
use crate::text::{chars_of, to_ascii_lower, lower_seq, eq_str};
use crate::Color;

verus! {

/// The color of an HTML color name written in lower case; `None` for any
/// other text.
pub open spec fn color_of_name(name: Seq<char>) -> Option<Color> {
    if name == "aliceblue"@ {
        Option::Some(Color { red: 240, green: 248, blue: 255 })
    } else if name == "antiquewhite"@ {
        Option::Some(Color { red: 250, green: 235, blue: 215 })
    } else if name == "aqua"@ {
        Option::Some(Color { red: 0, green: 255, blue: 255 })
    } else if name == "aquamarine"@ {
        Option::Some(Color { red: 127, green: 255, blue: 212 })
    } else if name == "azure"@ {
        Option::Some(Color { red: 240, green: 255, blue: 255 })
    } else if name == "beige"@ {
        Option::Some(Color { red: 245, green: 245, blue: 220 })
    } else if name == "bisque"@ {
        Option::Some(Color { red: 255, green: 228, blue: 196 })
    } else if name == "black"@ {
        Option::Some(Color { red: 0, green: 0, blue: 0 })
    } else if name == "blanchedalmond"@ {
        Option::Some(Color { red: 255, green: 235, blue: 205 })
    } else if name == "blue"@ {
        Option::Some(Color { red: 0, green: 0, blue: 255 })
    } else if name == "blueviolet"@ {
        Option::Some(Color { red: 138, green: 43, blue: 226 })
    } else if name == "brown"@ {
        Option::Some(Color { red: 165, green: 42, blue: 42 })
    } else if name == "burlywood"@ {
        Option::Some(Color { red: 222, green: 184, blue: 135 })
    } else if name == "cadetblue"@ {
        Option::Some(Color { red: 95, green: 158, blue: 160 })
    } else if name == "chartreuse"@ {
        Option::Some(Color { red: 127, green: 255, blue: 0 })
    } else if name == "chocolate"@ {
        Option::Some(Color { red: 210, green: 105, blue: 30 })
    } else if name == "coral"@ {
        Option::Some(Color { red: 255, green: 127, blue: 80 })
    } else if name == "cornflowerblue"@ {
        Option::Some(Color { red: 100, green: 149, blue: 237 })
    } else if name == "cornsilk"@ {
        Option::Some(Color { red: 255, green: 248, blue: 220 })
    } else if name == "crimson"@ {
        Option::Some(Color { red: 220, green: 20, blue: 60 })
    } else if name == "cyan"@ {
        Option::Some(Color { red: 0, green: 255, blue: 255 })
    } else if name == "darkblue"@ {
        Option::Some(Color { red: 0, green: 0, blue: 139 })
    } else if name == "darkcyan"@ {
        Option::Some(Color { red: 0, green: 139, blue: 139 })
    } else if name == "darkgoldenrod"@ {
        Option::Some(Color { red: 184, green: 134, blue: 11 })
    } else if name == "darkgray"@ {
        Option::Some(Color { red: 169, green: 169, blue: 169 })
    } else if name == "darkgrey"@ {
        Option::Some(Color { red: 169, green: 169, blue: 169 })
    } else if name == "darkgreen"@ {
        Option::Some(Color { red: 0, green: 100, blue: 0 })
    } else if name == "darkkhaki"@ {
        Option::Some(Color { red: 189, green: 183, blue: 107 })
    } else if name == "darkmagenta"@ {
        Option::Some(Color { red: 139, green: 0, blue: 139 })
    } else if name == "darkolivegreen"@ {
        Option::Some(Color { red: 85, green: 107, blue: 47 })
    } else if name == "darkorange"@ {
        Option::Some(Color { red: 255, green: 140, blue: 0 })
    } else if name == "darkorchid"@ {
        Option::Some(Color { red: 153, green: 50, blue: 204 })
    } else if name == "darkred"@ {
        Option::Some(Color { red: 139, green: 0, blue: 0 })
    } else if name == "darksalmon"@ {
        Option::Some(Color { red: 233, green: 150, blue: 122 })
    } else if name == "darksea_green"@ {
        Option::Some(Color { red: 143, green: 188, blue: 143 })
    } else if name == "darkslateblue"@ {
        Option::Some(Color { red: 72, green: 61, blue: 139 })
    } else if name == "darkslategray"@ {
        Option::Some(Color { red: 47, green: 79, blue: 79 })
    } else if name == "darkslategrey"@ {
        Option::Some(Color { red: 47, green: 79, blue: 79 })
    } else if name == "darkturquoise"@ {
        Option::Some(Color { red: 0, green: 206, blue: 209 })
    } else if name == "darkviolet"@ {
        Option::Some(Color { red: 148, green: 0, blue: 211 })
    } else if name == "deeppink"@ {
        Option::Some(Color { red: 255, green: 20, blue: 147 })
    } else if name == "deepskyblue"@ {
        Option::Some(Color { red: 0, green: 191, blue: 255 })
    } else if name == "dimgray"@ {
        Option::Some(Color { red: 105, green: 105, blue: 105 })
    } else if name == "dimgrey"@ {
        Option::Some(Color { red: 105, green: 105, blue: 105 })
    } else if name == "dodgerblue"@ {
        Option::Some(Color { red: 30, green: 144, blue: 255 })
    } else if name == "firebrick"@ {
        Option::Some(Color { red: 178, green: 34, blue: 34 })
    } else if name == "floralwhite"@ {
        Option::Some(Color { red: 255, green: 250, blue: 240 })
    } else if name == "forestgreen"@ {
        Option::Some(Color { red: 34, green: 139, blue: 34 })
    } else if name == "fuchsia"@ {
        Option::Some(Color { red: 255, green: 0, blue: 255 })
    } else if name == "gainsboro"@ {
        Option::Some(Color { red: 220, green: 220, blue: 220 })
    } else if name == "ghostwhite"@ {
        Option::Some(Color { red: 248, green: 248, blue: 255 })
    } else if name == "gold"@ {
        Option::Some(Color { red: 255, green: 215, blue: 0 })
    } else if name == "goldenrod"@ {
        Option::Some(Color { red: 218, green: 165, blue: 32 })
    } else if name == "gray"@ {
        Option::Some(Color { red: 128, green: 128, blue: 128 })
    } else if name == "grey"@ {
        Option::Some(Color { red: 128, green: 128, blue: 128 })
    } else if name == "green"@ {
        Option::Some(Color { red: 0, green: 128, blue: 0 })
    } else if name == "greenyellow"@ {
        Option::Some(Color { red: 173, green: 255, blue: 47 })
    } else if name == "honeydew"@ {
        Option::Some(Color { red: 240, green: 255, blue: 240 })
    } else if name == "hotpink"@ {
        Option::Some(Color { red: 255, green: 105, blue: 180 })
    } else if name == "indianred"@ {
        Option::Some(Color { red: 205, green: 92, blue: 92 })
    } else if name == "indigo"@ {
        Option::Some(Color { red: 75, green: 0, blue: 130 })
    } else if name == "ivory"@ {
        Option::Some(Color { red: 255, green: 255, blue: 240 })
    } else if name == "khaki"@ {
        Option::Some(Color { red: 240, green: 230, blue: 140 })
    } else if name == "lavender"@ {
        Option::Some(Color { red: 230, green: 230, blue: 250 })
    } else if name == "lavenderblush"@ {
        Option::Some(Color { red: 255, green: 240, blue: 245 })
    } else if name == "lawngreen"@ {
        Option::Some(Color { red: 124, green: 252, blue: 0 })
    } else if name == "lemonchiffon"@ {
        Option::Some(Color { red: 255, green: 250, blue: 205 })
    } else if name == "lightblue"@ {
        Option::Some(Color { red: 173, green: 216, blue: 230 })
    } else if name == "lightcoral"@ {
        Option::Some(Color { red: 240, green: 128, blue: 128 })
    } else if name == "lightcyan"@ {
        Option::Some(Color { red: 224, green: 255, blue: 255 })
    } else if name == "lightgoldenrodyellow"@ {
        Option::Some(Color { red: 250, green: 250, blue: 210 })
    } else if name == "lightgray"@ {
        Option::Some(Color { red: 211, green: 211, blue: 211 })
    } else if name == "lightgrey"@ {
        Option::Some(Color { red: 211, green: 211, blue: 211 })
    } else if name == "lightgreen"@ {
        Option::Some(Color { red: 144, green: 238, blue: 144 })
    } else if name == "lightpink"@ {
        Option::Some(Color { red: 255, green: 182, blue: 193 })
    } else if name == "lightsalmon"@ {
        Option::Some(Color { red: 255, green: 160, blue: 122 })
    } else if name == "lightseagreen"@ {
        Option::Some(Color { red: 32, green: 178, blue: 170 })
    } else if name == "lightskyblue"@ {
        Option::Some(Color { red: 135, green: 206, blue: 250 })
    } else if name == "lightslategray"@ {
        Option::Some(Color { red: 119, green: 136, blue: 153 })
    } else if name == "lightslategrey"@ {
        Option::Some(Color { red: 119, green: 136, blue: 153 })
    } else if name == "lightsteelblue"@ {
        Option::Some(Color { red: 176, green: 196, blue: 222 })
    } else if name == "lightyellow"@ {
        Option::Some(Color { red: 255, green: 255, blue: 224 })
    } else if name == "lime"@ {
        Option::Some(Color { red: 0, green: 255, blue: 0 })
    } else if name == "limegreen"@ {
        Option::Some(Color { red: 50, green: 205, blue: 50 })
    } else if name == "linen"@ {
        Option::Some(Color { red: 250, green: 240, blue: 230 })
    } else if name == "magenta"@ {
        Option::Some(Color { red: 255, green: 0, blue: 255 })
    } else if name == "maroon"@ {
        Option::Some(Color { red: 128, green: 0, blue: 0 })
    } else if name == "mediumaquamarine"@ {
        Option::Some(Color { red: 102, green: 205, blue: 170 })
    } else if name == "mediumblue"@ {
        Option::Some(Color { red: 0, green: 0, blue: 205 })
    } else if name == "mediumorchid"@ {
        Option::Some(Color { red: 186, green: 85, blue: 211 })
    } else if name == "mediumpurple"@ {
        Option::Some(Color { red: 147, green: 112, blue: 219 })
    } else if name == "mediumseagreen"@ {
        Option::Some(Color { red: 60, green: 179, blue: 113 })
    } else if name == "mediumslateblue"@ {
        Option::Some(Color { red: 123, green: 104, blue: 238 })
    } else if name == "mediumspringgreen"@ {
        Option::Some(Color { red: 0, green: 250, blue: 154 })
    } else if name == "mediumturquoise"@ {
        Option::Some(Color { red: 72, green: 209, blue: 204 })
    } else if name == "mediumvioletred"@ {
        Option::Some(Color { red: 199, green: 21, blue: 133 })
    } else if name == "midnightblue"@ {
        Option::Some(Color { red: 25, green: 25, blue: 112 })
    } else if name == "mintcream"@ {
        Option::Some(Color { red: 245, green: 255, blue: 250 })
    } else if name == "mistyrose"@ {
        Option::Some(Color { red: 255, green: 228, blue: 225 })
    } else if name == "moccasin"@ {
        Option::Some(Color { red: 255, green: 228, blue: 181 })
    } else if name == "navajowhite"@ {
        Option::Some(Color { red: 255, green: 222, blue: 173 })
    } else if name == "navy"@ {
        Option::Some(Color { red: 0, green: 0, blue: 128 })
    } else if name == "oldlace"@ {
        Option::Some(Color { red: 253, green: 245, blue: 230 })
    } else if name == "olive"@ {
        Option::Some(Color { red: 128, green: 128, blue: 0 })
    } else if name == "olivedrab"@ {
        Option::Some(Color { red: 107, green: 142, blue: 35 })
    } else if name == "orange"@ {
        Option::Some(Color { red: 255, green: 165, blue: 0 })
    } else if name == "orangered"@ {
        Option::Some(Color { red: 255, green: 69, blue: 0 })
    } else if name == "orchid"@ {
        Option::Some(Color { red: 218, green: 112, blue: 214 })
    } else if name == "palegoldenrod"@ {
        Option::Some(Color { red: 238, green: 232, blue: 170 })
    } else if name == "palegreen"@ {
        Option::Some(Color { red: 152, green: 251, blue: 152 })
    } else if name == "paleturquoise"@ {
        Option::Some(Color { red: 175, green: 238, blue: 238 })
    } else if name == "palevioletred"@ {
        Option::Some(Color { red: 219, green: 112, blue: 147 })
    } else if name == "papayawhip"@ {
        Option::Some(Color { red: 255, green: 239, blue: 213 })
    } else if name == "peachpuff"@ {
        Option::Some(Color { red: 255, green: 218, blue: 185 })
    } else if name == "peru"@ {
        Option::Some(Color { red: 205, green: 133, blue: 63 })
    } else if name == "pink"@ {
        Option::Some(Color { red: 255, green: 192, blue: 203 })
    } else if name == "plum"@ {
        Option::Some(Color { red: 221, green: 160, blue: 221 })
    } else if name == "powderblue"@ {
        Option::Some(Color { red: 176, green: 224, blue: 230 })
    } else if name == "purple"@ {
        Option::Some(Color { red: 128, green: 0, blue: 128 })
    } else if name == "rebeccapurple"@ {
        Option::Some(Color { red: 102, green: 51, blue: 153 })
    } else if name == "red"@ {
        Option::Some(Color { red: 255, green: 0, blue: 0 })
    } else if name == "rosybrown"@ {
        Option::Some(Color { red: 188, green: 143, blue: 143 })
    } else if name == "royalblue"@ {
        Option::Some(Color { red: 65, green: 105, blue: 225 })
    } else if name == "saddlebrown"@ {
        Option::Some(Color { red: 139, green: 69, blue: 19 })
    } else if name == "salmon"@ {
        Option::Some(Color { red: 250, green: 128, blue: 114 })
    } else if name == "sandybrown"@ {
        Option::Some(Color { red: 244, green: 164, blue: 96 })
    } else if name == "seagreen"@ {
        Option::Some(Color { red: 46, green: 139, blue: 87 })
    } else if name == "seashell"@ {
        Option::Some(Color { red: 255, green: 245, blue: 238 })
    } else if name == "sienna"@ {
        Option::Some(Color { red: 160, green: 82, blue: 45 })
    } else if name == "silver"@ {
        Option::Some(Color { red: 192, green: 192, blue: 192 })
    } else if name == "skyblue"@ {
        Option::Some(Color { red: 135, green: 206, blue: 235 })
    } else if name == "slateblue"@ {
        Option::Some(Color { red: 106, green: 90, blue: 205 })
    } else if name == "slategray"@ {
        Option::Some(Color { red: 112, green: 128, blue: 144 })
    } else if name == "slategrey"@ {
        Option::Some(Color { red: 112, green: 128, blue: 144 })
    } else if name == "snow"@ {
        Option::Some(Color { red: 255, green: 250, blue: 250 })
    } else if name == "springgreen"@ {
        Option::Some(Color { red: 0, green: 255, blue: 127 })
    } else if name == "steelblue"@ {
        Option::Some(Color { red: 70, green: 130, blue: 180 })
    } else if name == "tan"@ {
        Option::Some(Color { red: 210, green: 180, blue: 140 })
    } else if name == "teal"@ {
        Option::Some(Color { red: 0, green: 128, blue: 128 })
    } else if name == "thistle"@ {
        Option::Some(Color { red: 216, green: 191, blue: 216 })
    } else if name == "tomato"@ {
        Option::Some(Color { red: 255, green: 99, blue: 71 })
    } else if name == "turquoise"@ {
        Option::Some(Color { red: 64, green: 224, blue: 208 })
    } else if name == "violet"@ {
        Option::Some(Color { red: 238, green: 130, blue: 238 })
    } else if name == "wheat"@ {
        Option::Some(Color { red: 245, green: 222, blue: 179 })
    } else if name == "white"@ {
        Option::Some(Color { red: 255, green: 255, blue: 255 })
    } else if name == "whitesmoke"@ {
        Option::Some(Color { red: 245, green: 245, blue: 245 })
    } else if name == "yellow"@ {
        Option::Some(Color { red: 255, green: 255, blue: 0 })
    } else if name == "yellowgreen"@ {
        Option::Some(Color { red: 154, green: 205, blue: 50 })
    } else {
        Option::None
    }
}

/// The canonical HTML name of a color; `None` when the color has no name.
/// A color with several names (such as the gray/grey pairs) maps to the one
/// name kept here.
pub open spec fn name_of_color(c: Color) -> Option<Seq<char>> {
    if c == (Color { red: 240, green: 248, blue: 255 }) {
        Option::Some("aliceblue"@)
    } else if c == (Color { red: 250, green: 235, blue: 215 }) {
        Option::Some("antiquewhite"@)
    } else if c == (Color { red: 0, green: 255, blue: 255 }) {
        Option::Some("aqua"@)
    } else if c == (Color { red: 127, green: 255, blue: 212 }) {
        Option::Some("aquamarine"@)
    } else if c == (Color { red: 240, green: 255, blue: 255 }) {
        Option::Some("azure"@)
    } else if c == (Color { red: 245, green: 245, blue: 220 }) {
        Option::Some("beige"@)
    } else if c == (Color { red: 255, green: 228, blue: 196 }) {
        Option::Some("bisque"@)
    } else if c == (Color { red: 0, green: 0, blue: 0 }) {
        Option::Some("black"@)
    } else if c == (Color { red: 255, green: 235, blue: 205 }) {
        Option::Some("blanchedalmond"@)
    } else if c == (Color { red: 0, green: 0, blue: 255 }) {
        Option::Some("blue"@)
    } else if c == (Color { red: 138, green: 43, blue: 226 }) {
        Option::Some("blueviolet"@)
    } else if c == (Color { red: 165, green: 42, blue: 42 }) {
        Option::Some("brown"@)
    } else if c == (Color { red: 222, green: 184, blue: 135 }) {
        Option::Some("burlywood"@)
    } else if c == (Color { red: 95, green: 158, blue: 160 }) {
        Option::Some("cadetblue"@)
    } else if c == (Color { red: 127, green: 255, blue: 0 }) {
        Option::Some("chartreuse"@)
    } else if c == (Color { red: 210, green: 105, blue: 30 }) {
        Option::Some("chocolate"@)
    } else if c == (Color { red: 255, green: 127, blue: 80 }) {
        Option::Some("coral"@)
    } else if c == (Color { red: 100, green: 149, blue: 237 }) {
        Option::Some("cornflowerblue"@)
    } else if c == (Color { red: 255, green: 248, blue: 220 }) {
        Option::Some("cornsilk"@)
    } else if c == (Color { red: 220, green: 20, blue: 60 }) {
        Option::Some("crimson"@)
    } else if c == (Color { red: 0, green: 0, blue: 139 }) {
        Option::Some("darkblue"@)
    } else if c == (Color { red: 0, green: 139, blue: 139 }) {
        Option::Some("darkcyan"@)
    } else if c == (Color { red: 184, green: 134, blue: 11 }) {
        Option::Some("darkgoldenrod"@)
    } else if c == (Color { red: 169, green: 169, blue: 169 }) {
        Option::Some("darkgray"@)
    } else if c == (Color { red: 0, green: 100, blue: 0 }) {
        Option::Some("darkgreen"@)
    } else if c == (Color { red: 189, green: 183, blue: 107 }) {
        Option::Some("darkkhaki"@)
    } else if c == (Color { red: 139, green: 0, blue: 139 }) {
        Option::Some("darkmagenta"@)
    } else if c == (Color { red: 85, green: 107, blue: 47 }) {
        Option::Some("darkolivegreen"@)
    } else if c == (Color { red: 255, green: 140, blue: 0 }) {
        Option::Some("darkorange"@)
    } else if c == (Color { red: 153, green: 50, blue: 204 }) {
        Option::Some("darkorchid"@)
    } else if c == (Color { red: 139, green: 0, blue: 0 }) {
        Option::Some("darkred"@)
    } else if c == (Color { red: 233, green: 150, blue: 122 }) {
        Option::Some("darksalmon"@)
    } else if c == (Color { red: 143, green: 188, blue: 143 }) {
        Option::Some("darksea_green"@)
    } else if c == (Color { red: 72, green: 61, blue: 139 }) {
        Option::Some("darkslateblue"@)
    } else if c == (Color { red: 47, green: 79, blue: 79 }) {
        Option::Some("darkslategray"@)
    } else if c == (Color { red: 0, green: 206, blue: 209 }) {
        Option::Some("darkturquoise"@)
    } else if c == (Color { red: 148, green: 0, blue: 211 }) {
        Option::Some("darkviolet"@)
    } else if c == (Color { red: 255, green: 20, blue: 147 }) {
        Option::Some("deeppink"@)
    } else if c == (Color { red: 0, green: 191, blue: 255 }) {
        Option::Some("deepskyblue"@)
    } else if c == (Color { red: 105, green: 105, blue: 105 }) {
        Option::Some("dimgray"@)
    } else if c == (Color { red: 30, green: 144, blue: 255 }) {
        Option::Some("dodgerblue"@)
    } else if c == (Color { red: 178, green: 34, blue: 34 }) {
        Option::Some("firebrick"@)
    } else if c == (Color { red: 255, green: 250, blue: 240 }) {
        Option::Some("floralwhite"@)
    } else if c == (Color { red: 34, green: 139, blue: 34 }) {
        Option::Some("forestgreen"@)
    } else if c == (Color { red: 255, green: 0, blue: 255 }) {
        Option::Some("fuchsia"@)
    } else if c == (Color { red: 220, green: 220, blue: 220 }) {
        Option::Some("gainsboro"@)
    } else if c == (Color { red: 248, green: 248, blue: 255 }) {
        Option::Some("ghostwhite"@)
    } else if c == (Color { red: 255, green: 215, blue: 0 }) {
        Option::Some("gold"@)
    } else if c == (Color { red: 218, green: 165, blue: 32 }) {
        Option::Some("goldenrod"@)
    } else if c == (Color { red: 128, green: 128, blue: 128 }) {
        Option::Some("gray"@)
    } else if c == (Color { red: 0, green: 128, blue: 0 }) {
        Option::Some("green"@)
    } else if c == (Color { red: 173, green: 255, blue: 47 }) {
        Option::Some("greenyellow"@)
    } else if c == (Color { red: 240, green: 255, blue: 240 }) {
        Option::Some("honeydew"@)
    } else if c == (Color { red: 255, green: 105, blue: 180 }) {
        Option::Some("hotpink"@)
    } else if c == (Color { red: 205, green: 92, blue: 92 }) {
        Option::Some("indianred"@)
    } else if c == (Color { red: 75, green: 0, blue: 130 }) {
        Option::Some("indigo"@)
    } else if c == (Color { red: 255, green: 255, blue: 240 }) {
        Option::Some("ivory"@)
    } else if c == (Color { red: 240, green: 230, blue: 140 }) {
        Option::Some("khaki"@)
    } else if c == (Color { red: 230, green: 230, blue: 250 }) {
        Option::Some("lavender"@)
    } else if c == (Color { red: 255, green: 240, blue: 245 }) {
        Option::Some("lavenderblush"@)
    } else if c == (Color { red: 124, green: 252, blue: 0 }) {
        Option::Some("lawngreen"@)
    } else if c == (Color { red: 255, green: 250, blue: 205 }) {
        Option::Some("lemonchiffon"@)
    } else if c == (Color { red: 173, green: 216, blue: 230 }) {
        Option::Some("lightblue"@)
    } else if c == (Color { red: 240, green: 128, blue: 128 }) {
        Option::Some("lightcoral"@)
    } else if c == (Color { red: 224, green: 255, blue: 255 }) {
        Option::Some("lightcyan"@)
    } else if c == (Color { red: 250, green: 250, blue: 210 }) {
        Option::Some("lightgoldenrodyellow"@)
    } else if c == (Color { red: 211, green: 211, blue: 211 }) {
        Option::Some("lightgray"@)
    } else if c == (Color { red: 144, green: 238, blue: 144 }) {
        Option::Some("lightgreen"@)
    } else if c == (Color { red: 255, green: 182, blue: 193 }) {
        Option::Some("lightpink"@)
    } else if c == (Color { red: 255, green: 160, blue: 122 }) {
        Option::Some("lightsalmon"@)
    } else if c == (Color { red: 32, green: 178, blue: 170 }) {
        Option::Some("lightseagreen"@)
    } else if c == (Color { red: 135, green: 206, blue: 250 }) {
        Option::Some("lightskyblue"@)
    } else if c == (Color { red: 119, green: 136, blue: 153 }) {
        Option::Some("lightslategray"@)
    } else if c == (Color { red: 176, green: 196, blue: 222 }) {
        Option::Some("lightsteelblue"@)
    } else if c == (Color { red: 255, green: 255, blue: 224 }) {
        Option::Some("lightyellow"@)
    } else if c == (Color { red: 0, green: 255, blue: 0 }) {
        Option::Some("lime"@)
    } else if c == (Color { red: 50, green: 205, blue: 50 }) {
        Option::Some("limegreen"@)
    } else if c == (Color { red: 250, green: 240, blue: 230 }) {
        Option::Some("linen"@)
    } else if c == (Color { red: 128, green: 0, blue: 0 }) {
        Option::Some("maroon"@)
    } else if c == (Color { red: 102, green: 205, blue: 170 }) {
        Option::Some("mediumaquamarine"@)
    } else if c == (Color { red: 0, green: 0, blue: 205 }) {
        Option::Some("mediumblue"@)
    } else if c == (Color { red: 186, green: 85, blue: 211 }) {
        Option::Some("mediumorchid"@)
    } else if c == (Color { red: 147, green: 112, blue: 219 }) {
        Option::Some("mediumpurple"@)
    } else if c == (Color { red: 60, green: 179, blue: 113 }) {
        Option::Some("mediumseagreen"@)
    } else if c == (Color { red: 123, green: 104, blue: 238 }) {
        Option::Some("mediumslateblue"@)
    } else if c == (Color { red: 0, green: 250, blue: 154 }) {
        Option::Some("mediumspringgreen"@)
    } else if c == (Color { red: 72, green: 209, blue: 204 }) {
        Option::Some("mediumturquoise"@)
    } else if c == (Color { red: 199, green: 21, blue: 133 }) {
        Option::Some("mediumvioletred"@)
    } else if c == (Color { red: 25, green: 25, blue: 112 }) {
        Option::Some("midnightblue"@)
    } else if c == (Color { red: 245, green: 255, blue: 250 }) {
        Option::Some("mintcream"@)
    } else if c == (Color { red: 255, green: 228, blue: 225 }) {
        Option::Some("mistyrose"@)
    } else if c == (Color { red: 255, green: 228, blue: 181 }) {
        Option::Some("moccasin"@)
    } else if c == (Color { red: 255, green: 222, blue: 173 }) {
        Option::Some("navajowhite"@)
    } else if c == (Color { red: 0, green: 0, blue: 128 }) {
        Option::Some("navy"@)
    } else if c == (Color { red: 253, green: 245, blue: 230 }) {
        Option::Some("oldlace"@)
    } else if c == (Color { red: 128, green: 128, blue: 0 }) {
        Option::Some("olive"@)
    } else if c == (Color { red: 107, green: 142, blue: 35 }) {
        Option::Some("olivedrab"@)
    } else if c == (Color { red: 255, green: 165, blue: 0 }) {
        Option::Some("orange"@)
    } else if c == (Color { red: 255, green: 69, blue: 0 }) {
        Option::Some("orangered"@)
    } else if c == (Color { red: 218, green: 112, blue: 214 }) {
        Option::Some("orchid"@)
    } else if c == (Color { red: 238, green: 232, blue: 170 }) {
        Option::Some("palegoldenrod"@)
    } else if c == (Color { red: 152, green: 251, blue: 152 }) {
        Option::Some("palegreen"@)
    } else if c == (Color { red: 175, green: 238, blue: 238 }) {
        Option::Some("paleturquoise"@)
    } else if c == (Color { red: 219, green: 112, blue: 147 }) {
        Option::Some("palevioletred"@)
    } else if c == (Color { red: 255, green: 239, blue: 213 }) {
        Option::Some("papayawhip"@)
    } else if c == (Color { red: 255, green: 218, blue: 185 }) {
        Option::Some("peachpuff"@)
    } else if c == (Color { red: 205, green: 133, blue: 63 }) {
        Option::Some("peru"@)
    } else if c == (Color { red: 255, green: 192, blue: 203 }) {
        Option::Some("pink"@)
    } else if c == (Color { red: 221, green: 160, blue: 221 }) {
        Option::Some("plum"@)
    } else if c == (Color { red: 176, green: 224, blue: 230 }) {
        Option::Some("powderblue"@)
    } else if c == (Color { red: 128, green: 0, blue: 128 }) {
        Option::Some("purple"@)
    } else if c == (Color { red: 102, green: 51, blue: 153 }) {
        Option::Some("rebeccapurple"@)
    } else if c == (Color { red: 255, green: 0, blue: 0 }) {
        Option::Some("red"@)
    } else if c == (Color { red: 188, green: 143, blue: 143 }) {
        Option::Some("rosybrown"@)
    } else if c == (Color { red: 65, green: 105, blue: 225 }) {
        Option::Some("royalblue"@)
    } else if c == (Color { red: 139, green: 69, blue: 19 }) {
        Option::Some("saddlebrown"@)
    } else if c == (Color { red: 250, green: 128, blue: 114 }) {
        Option::Some("salmon"@)
    } else if c == (Color { red: 244, green: 164, blue: 96 }) {
        Option::Some("sandybrown"@)
    } else if c == (Color { red: 46, green: 139, blue: 87 }) {
        Option::Some("seagreen"@)
    } else if c == (Color { red: 255, green: 245, blue: 238 }) {
        Option::Some("seashell"@)
    } else if c == (Color { red: 160, green: 82, blue: 45 }) {
        Option::Some("sienna"@)
    } else if c == (Color { red: 192, green: 192, blue: 192 }) {
        Option::Some("silver"@)
    } else if c == (Color { red: 135, green: 206, blue: 235 }) {
        Option::Some("skyblue"@)
    } else if c == (Color { red: 106, green: 90, blue: 205 }) {
        Option::Some("slateblue"@)
    } else if c == (Color { red: 112, green: 128, blue: 144 }) {
        Option::Some("slategray"@)
    } else if c == (Color { red: 255, green: 250, blue: 250 }) {
        Option::Some("snow"@)
    } else if c == (Color { red: 0, green: 255, blue: 127 }) {
        Option::Some("springgreen"@)
    } else if c == (Color { red: 70, green: 130, blue: 180 }) {
        Option::Some("steelblue"@)
    } else if c == (Color { red: 210, green: 180, blue: 140 }) {
        Option::Some("tan"@)
    } else if c == (Color { red: 0, green: 128, blue: 128 }) {
        Option::Some("teal"@)
    } else if c == (Color { red: 216, green: 191, blue: 216 }) {
        Option::Some("thistle"@)
    } else if c == (Color { red: 255, green: 99, blue: 71 }) {
        Option::Some("tomato"@)
    } else if c == (Color { red: 64, green: 224, blue: 208 }) {
        Option::Some("turquoise"@)
    } else if c == (Color { red: 238, green: 130, blue: 238 }) {
        Option::Some("violet"@)
    } else if c == (Color { red: 245, green: 222, blue: 179 }) {
        Option::Some("wheat"@)
    } else if c == (Color { red: 255, green: 255, blue: 255 }) {
        Option::Some("white"@)
    } else if c == (Color { red: 245, green: 245, blue: 245 }) {
        Option::Some("whitesmoke"@)
    } else if c == (Color { red: 255, green: 255, blue: 0 }) {
        Option::Some("yellow"@)
    } else if c == (Color { red: 154, green: 205, blue: 50 }) {
        Option::Some("yellowgreen"@)
    } else {
        Option::None
    }
}

/// Attempts to parse a color from an HTML color name. Names are matched
/// without regard to ASCII case.
#[verifier::rlimit(100)]
pub fn from_html_color_name(s: &str) -> (r: Option<Color>)
    ensures
        r == color_of_name(lower_seq(s@)),
{
    let v = chars_of(s);
    let n = to_ascii_lower(&v);
    if eq_str(&n, "aliceblue") {
        Some(Color { red: 240, green: 248, blue: 255 })
    } else if eq_str(&n, "antiquewhite") {
        Some(Color { red: 250, green: 235, blue: 215 })
    } else if eq_str(&n, "aqua") {
        Some(Color { red: 0, green: 255, blue: 255 })
    } else if eq_str(&n, "aquamarine") {
        Some(Color { red: 127, green: 255, blue: 212 })
    } else if eq_str(&n, "azure") {
        Some(Color { red: 240, green: 255, blue: 255 })
    } else if eq_str(&n, "beige") {
        Some(Color { red: 245, green: 245, blue: 220 })
    } else if eq_str(&n, "bisque") {
        Some(Color { red: 255, green: 228, blue: 196 })
    } else if eq_str(&n, "black") {
        Some(Color { red: 0, green: 0, blue: 0 })
    } else if eq_str(&n, "blanchedalmond") {
        Some(Color { red: 255, green: 235, blue: 205 })
    } else if eq_str(&n, "blue") {
        Some(Color { red: 0, green: 0, blue: 255 })
    } else if eq_str(&n, "blueviolet") {
        Some(Color { red: 138, green: 43, blue: 226 })
    } else if eq_str(&n, "brown") {
        Some(Color { red: 165, green: 42, blue: 42 })
    } else if eq_str(&n, "burlywood") {
        Some(Color { red: 222, green: 184, blue: 135 })
    } else if eq_str(&n, "cadetblue") {
        Some(Color { red: 95, green: 158, blue: 160 })
    } else if eq_str(&n, "chartreuse") {
        Some(Color { red: 127, green: 255, blue: 0 })
    } else if eq_str(&n, "chocolate") {
        Some(Color { red: 210, green: 105, blue: 30 })
    } else if eq_str(&n, "coral") {
        Some(Color { red: 255, green: 127, blue: 80 })
    } else if eq_str(&n, "cornflowerblue") {
        Some(Color { red: 100, green: 149, blue: 237 })
    } else if eq_str(&n, "cornsilk") {
        Some(Color { red: 255, green: 248, blue: 220 })
    } else if eq_str(&n, "crimson") {
        Some(Color { red: 220, green: 20, blue: 60 })
    } else if eq_str(&n, "cyan") {
        Some(Color { red: 0, green: 255, blue: 255 })
    } else if eq_str(&n, "darkblue") {
        Some(Color { red: 0, green: 0, blue: 139 })
    } else if eq_str(&n, "darkcyan") {
        Some(Color { red: 0, green: 139, blue: 139 })
    } else if eq_str(&n, "darkgoldenrod") {
        Some(Color { red: 184, green: 134, blue: 11 })
    } else if eq_str(&n, "darkgray") {
        Some(Color { red: 169, green: 169, blue: 169 })
    } else if eq_str(&n, "darkgrey") {
        Some(Color { red: 169, green: 169, blue: 169 })
    } else if eq_str(&n, "darkgreen") {
        Some(Color { red: 0, green: 100, blue: 0 })
    } else if eq_str(&n, "darkkhaki") {
        Some(Color { red: 189, green: 183, blue: 107 })
    } else if eq_str(&n, "darkmagenta") {
        Some(Color { red: 139, green: 0, blue: 139 })
    } else if eq_str(&n, "darkolivegreen") {
        Some(Color { red: 85, green: 107, blue: 47 })
    } else if eq_str(&n, "darkorange") {
        Some(Color { red: 255, green: 140, blue: 0 })
    } else if eq_str(&n, "darkorchid") {
        Some(Color { red: 153, green: 50, blue: 204 })
    } else if eq_str(&n, "darkred") {
        Some(Color { red: 139, green: 0, blue: 0 })
    } else if eq_str(&n, "darksalmon") {
        Some(Color { red: 233, green: 150, blue: 122 })
    } else if eq_str(&n, "darksea_green") {
        Some(Color { red: 143, green: 188, blue: 143 })
    } else if eq_str(&n, "darkslateblue") {
        Some(Color { red: 72, green: 61, blue: 139 })
    } else if eq_str(&n, "darkslategray") {
        Some(Color { red: 47, green: 79, blue: 79 })
    } else if eq_str(&n, "darkslategrey") {
        Some(Color { red: 47, green: 79, blue: 79 })
    } else if eq_str(&n, "darkturquoise") {
        Some(Color { red: 0, green: 206, blue: 209 })
    } else if eq_str(&n, "darkviolet") {
        Some(Color { red: 148, green: 0, blue: 211 })
    } else if eq_str(&n, "deeppink") {
        Some(Color { red: 255, green: 20, blue: 147 })
    } else if eq_str(&n, "deepskyblue") {
        Some(Color { red: 0, green: 191, blue: 255 })
    } else if eq_str(&n, "dimgray") {
        Some(Color { red: 105, green: 105, blue: 105 })
    } else if eq_str(&n, "dimgrey") {
        Some(Color { red: 105, green: 105, blue: 105 })
    } else if eq_str(&n, "dodgerblue") {
        Some(Color { red: 30, green: 144, blue: 255 })
    } else if eq_str(&n, "firebrick") {
        Some(Color { red: 178, green: 34, blue: 34 })
    } else if eq_str(&n, "floralwhite") {
        Some(Color { red: 255, green: 250, blue: 240 })
    } else if eq_str(&n, "forestgreen") {
        Some(Color { red: 34, green: 139, blue: 34 })
    } else if eq_str(&n, "fuchsia") {
        Some(Color { red: 255, green: 0, blue: 255 })
    } else if eq_str(&n, "gainsboro") {
        Some(Color { red: 220, green: 220, blue: 220 })
    } else if eq_str(&n, "ghostwhite") {
        Some(Color { red: 248, green: 248, blue: 255 })
    } else if eq_str(&n, "gold") {
        Some(Color { red: 255, green: 215, blue: 0 })
    } else if eq_str(&n, "goldenrod") {
        Some(Color { red: 218, green: 165, blue: 32 })
    } else if eq_str(&n, "gray") {
        Some(Color { red: 128, green: 128, blue: 128 })
    } else if eq_str(&n, "grey") {
        Some(Color { red: 128, green: 128, blue: 128 })
    } else if eq_str(&n, "green") {
        Some(Color { red: 0, green: 128, blue: 0 })
    } else if eq_str(&n, "greenyellow") {
        Some(Color { red: 173, green: 255, blue: 47 })
    } else if eq_str(&n, "honeydew") {
        Some(Color { red: 240, green: 255, blue: 240 })
    } else if eq_str(&n, "hotpink") {
        Some(Color { red: 255, green: 105, blue: 180 })
    } else if eq_str(&n, "indianred") {
        Some(Color { red: 205, green: 92, blue: 92 })
    } else if eq_str(&n, "indigo") {
        Some(Color { red: 75, green: 0, blue: 130 })
    } else if eq_str(&n, "ivory") {
        Some(Color { red: 255, green: 255, blue: 240 })
    } else if eq_str(&n, "khaki") {
        Some(Color { red: 240, green: 230, blue: 140 })
    } else if eq_str(&n, "lavender") {
        Some(Color { red: 230, green: 230, blue: 250 })
    } else if eq_str(&n, "lavenderblush") {
        Some(Color { red: 255, green: 240, blue: 245 })
    } else if eq_str(&n, "lawngreen") {
        Some(Color { red: 124, green: 252, blue: 0 })
    } else if eq_str(&n, "lemonchiffon") {
        Some(Color { red: 255, green: 250, blue: 205 })
    } else if eq_str(&n, "lightblue") {
        Some(Color { red: 173, green: 216, blue: 230 })
    } else if eq_str(&n, "lightcoral") {
        Some(Color { red: 240, green: 128, blue: 128 })
    } else if eq_str(&n, "lightcyan") {
        Some(Color { red: 224, green: 255, blue: 255 })
    } else if eq_str(&n, "lightgoldenrodyellow") {
        Some(Color { red: 250, green: 250, blue: 210 })
    } else if eq_str(&n, "lightgray") {
        Some(Color { red: 211, green: 211, blue: 211 })
    } else if eq_str(&n, "lightgrey") {
        Some(Color { red: 211, green: 211, blue: 211 })
    } else if eq_str(&n, "lightgreen") {
        Some(Color { red: 144, green: 238, blue: 144 })
    } else if eq_str(&n, "lightpink") {
        Some(Color { red: 255, green: 182, blue: 193 })
    } else if eq_str(&n, "lightsalmon") {
        Some(Color { red: 255, green: 160, blue: 122 })
    } else if eq_str(&n, "lightseagreen") {
        Some(Color { red: 32, green: 178, blue: 170 })
    } else if eq_str(&n, "lightskyblue") {
        Some(Color { red: 135, green: 206, blue: 250 })
    } else if eq_str(&n, "lightslategray") {
        Some(Color { red: 119, green: 136, blue: 153 })
    } else if eq_str(&n, "lightslategrey") {
        Some(Color { red: 119, green: 136, blue: 153 })
    } else if eq_str(&n, "lightsteelblue") {
        Some(Color { red: 176, green: 196, blue: 222 })
    } else if eq_str(&n, "lightyellow") {
        Some(Color { red: 255, green: 255, blue: 224 })
    } else if eq_str(&n, "lime") {
        Some(Color { red: 0, green: 255, blue: 0 })
    } else if eq_str(&n, "limegreen") {
        Some(Color { red: 50, green: 205, blue: 50 })
    } else if eq_str(&n, "linen") {
        Some(Color { red: 250, green: 240, blue: 230 })
    } else if eq_str(&n, "magenta") {
        Some(Color { red: 255, green: 0, blue: 255 })
    } else if eq_str(&n, "maroon") {
        Some(Color { red: 128, green: 0, blue: 0 })
    } else if eq_str(&n, "mediumaquamarine") {
        Some(Color { red: 102, green: 205, blue: 170 })
    } else if eq_str(&n, "mediumblue") {
        Some(Color { red: 0, green: 0, blue: 205 })
    } else if eq_str(&n, "mediumorchid") {
        Some(Color { red: 186, green: 85, blue: 211 })
    } else if eq_str(&n, "mediumpurple") {
        Some(Color { red: 147, green: 112, blue: 219 })
    } else if eq_str(&n, "mediumseagreen") {
        Some(Color { red: 60, green: 179, blue: 113 })
    } else if eq_str(&n, "mediumslateblue") {
        Some(Color { red: 123, green: 104, blue: 238 })
    } else if eq_str(&n, "mediumspringgreen") {
        Some(Color { red: 0, green: 250, blue: 154 })
    } else if eq_str(&n, "mediumturquoise") {
        Some(Color { red: 72, green: 209, blue: 204 })
    } else if eq_str(&n, "mediumvioletred") {
        Some(Color { red: 199, green: 21, blue: 133 })
    } else if eq_str(&n, "midnightblue") {
        Some(Color { red: 25, green: 25, blue: 112 })
    } else if eq_str(&n, "mintcream") {
        Some(Color { red: 245, green: 255, blue: 250 })
    } else if eq_str(&n, "mistyrose") {
        Some(Color { red: 255, green: 228, blue: 225 })
    } else if eq_str(&n, "moccasin") {
        Some(Color { red: 255, green: 228, blue: 181 })
    } else if eq_str(&n, "navajowhite") {
        Some(Color { red: 255, green: 222, blue: 173 })
    } else if eq_str(&n, "navy") {
        Some(Color { red: 0, green: 0, blue: 128 })
    } else if eq_str(&n, "oldlace") {
        Some(Color { red: 253, green: 245, blue: 230 })
    } else if eq_str(&n, "olive") {
        Some(Color { red: 128, green: 128, blue: 0 })
    } else if eq_str(&n, "olivedrab") {
        Some(Color { red: 107, green: 142, blue: 35 })
    } else if eq_str(&n, "orange") {
        Some(Color { red: 255, green: 165, blue: 0 })
    } else if eq_str(&n, "orangered") {
        Some(Color { red: 255, green: 69, blue: 0 })
    } else if eq_str(&n, "orchid") {
        Some(Color { red: 218, green: 112, blue: 214 })
    } else if eq_str(&n, "palegoldenrod") {
        Some(Color { red: 238, green: 232, blue: 170 })
    } else if eq_str(&n, "palegreen") {
        Some(Color { red: 152, green: 251, blue: 152 })
    } else if eq_str(&n, "paleturquoise") {
        Some(Color { red: 175, green: 238, blue: 238 })
    } else if eq_str(&n, "palevioletred") {
        Some(Color { red: 219, green: 112, blue: 147 })
    } else if eq_str(&n, "papayawhip") {
        Some(Color { red: 255, green: 239, blue: 213 })
    } else if eq_str(&n, "peachpuff") {
        Some(Color { red: 255, green: 218, blue: 185 })
    } else if eq_str(&n, "peru") {
        Some(Color { red: 205, green: 133, blue: 63 })
    } else if eq_str(&n, "pink") {
        Some(Color { red: 255, green: 192, blue: 203 })
    } else if eq_str(&n, "plum") {
        Some(Color { red: 221, green: 160, blue: 221 })
    } else if eq_str(&n, "powderblue") {
        Some(Color { red: 176, green: 224, blue: 230 })
    } else if eq_str(&n, "purple") {
        Some(Color { red: 128, green: 0, blue: 128 })
    } else if eq_str(&n, "rebeccapurple") {
        Some(Color { red: 102, green: 51, blue: 153 })
    } else if eq_str(&n, "red") {
        Some(Color { red: 255, green: 0, blue: 0 })
    } else if eq_str(&n, "rosybrown") {
        Some(Color { red: 188, green: 143, blue: 143 })
    } else if eq_str(&n, "royalblue") {
        Some(Color { red: 65, green: 105, blue: 225 })
    } else if eq_str(&n, "saddlebrown") {
        Some(Color { red: 139, green: 69, blue: 19 })
    } else if eq_str(&n, "salmon") {
        Some(Color { red: 250, green: 128, blue: 114 })
    } else if eq_str(&n, "sandybrown") {
        Some(Color { red: 244, green: 164, blue: 96 })
    } else if eq_str(&n, "seagreen") {
        Some(Color { red: 46, green: 139, blue: 87 })
    } else if eq_str(&n, "seashell") {
        Some(Color { red: 255, green: 245, blue: 238 })
    } else if eq_str(&n, "sienna") {
        Some(Color { red: 160, green: 82, blue: 45 })
    } else if eq_str(&n, "silver") {
        Some(Color { red: 192, green: 192, blue: 192 })
    } else if eq_str(&n, "skyblue") {
        Some(Color { red: 135, green: 206, blue: 235 })
    } else if eq_str(&n, "slateblue") {
        Some(Color { red: 106, green: 90, blue: 205 })
    } else if eq_str(&n, "slategray") {
        Some(Color { red: 112, green: 128, blue: 144 })
    } else if eq_str(&n, "slategrey") {
        Some(Color { red: 112, green: 128, blue: 144 })
    } else if eq_str(&n, "snow") {
        Some(Color { red: 255, green: 250, blue: 250 })
    } else if eq_str(&n, "springgreen") {
        Some(Color { red: 0, green: 255, blue: 127 })
    } else if eq_str(&n, "steelblue") {
        Some(Color { red: 70, green: 130, blue: 180 })
    } else if eq_str(&n, "tan") {
        Some(Color { red: 210, green: 180, blue: 140 })
    } else if eq_str(&n, "teal") {
        Some(Color { red: 0, green: 128, blue: 128 })
    } else if eq_str(&n, "thistle") {
        Some(Color { red: 216, green: 191, blue: 216 })
    } else if eq_str(&n, "tomato") {
        Some(Color { red: 255, green: 99, blue: 71 })
    } else if eq_str(&n, "turquoise") {
        Some(Color { red: 64, green: 224, blue: 208 })
    } else if eq_str(&n, "violet") {
        Some(Color { red: 238, green: 130, blue: 238 })
    } else if eq_str(&n, "wheat") {
        Some(Color { red: 245, green: 222, blue: 179 })
    } else if eq_str(&n, "white") {
        Some(Color { red: 255, green: 255, blue: 255 })
    } else if eq_str(&n, "whitesmoke") {
        Some(Color { red: 245, green: 245, blue: 245 })
    } else if eq_str(&n, "yellow") {
        Some(Color { red: 255, green: 255, blue: 0 })
    } else if eq_str(&n, "yellowgreen") {
        Some(Color { red: 154, green: 205, blue: 50 })
    } else {
        None
    }
}

/// The canonical HTML color name of a color, if it has one.
#[verifier::rlimit(100)]
pub fn to_html_color_name(color: &Color) -> (r: Option<&'static str>)
    ensures
        match r {
            Option::Some(n) => name_of_color(*color) == Option::Some(n@),
            Option::None => name_of_color(*color) is None,
        },
{
    if color.red == 240 && color.green == 248 && color.blue == 255 {
        Some("aliceblue")
    } else if color.red == 250 && color.green == 235 && color.blue == 215 {
        Some("antiquewhite")
    } else if color.red == 0 && color.green == 255 && color.blue == 255 {
        Some("aqua")
    } else if color.red == 127 && color.green == 255 && color.blue == 212 {
        Some("aquamarine")
    } else if color.red == 240 && color.green == 255 && color.blue == 255 {
        Some("azure")
    } else if color.red == 245 && color.green == 245 && color.blue == 220 {
        Some("beige")
    } else if color.red == 255 && color.green == 228 && color.blue == 196 {
        Some("bisque")
    } else if color.red == 0 && color.green == 0 && color.blue == 0 {
        Some("black")
    } else if color.red == 255 && color.green == 235 && color.blue == 205 {
        Some("blanchedalmond")
    } else if color.red == 0 && color.green == 0 && color.blue == 255 {
        Some("blue")
    } else if color.red == 138 && color.green == 43 && color.blue == 226 {
        Some("blueviolet")
    } else if color.red == 165 && color.green == 42 && color.blue == 42 {
        Some("brown")
    } else if color.red == 222 && color.green == 184 && color.blue == 135 {
        Some("burlywood")
    } else if color.red == 95 && color.green == 158 && color.blue == 160 {
        Some("cadetblue")
    } else if color.red == 127 && color.green == 255 && color.blue == 0 {
        Some("chartreuse")
    } else if color.red == 210 && color.green == 105 && color.blue == 30 {
        Some("chocolate")
    } else if color.red == 255 && color.green == 127 && color.blue == 80 {
        Some("coral")
    } else if color.red == 100 && color.green == 149 && color.blue == 237 {
        Some("cornflowerblue")
    } else if color.red == 255 && color.green == 248 && color.blue == 220 {
        Some("cornsilk")
    } else if color.red == 220 && color.green == 20 && color.blue == 60 {
        Some("crimson")
    } else if color.red == 0 && color.green == 0 && color.blue == 139 {
        Some("darkblue")
    } else if color.red == 0 && color.green == 139 && color.blue == 139 {
        Some("darkcyan")
    } else if color.red == 184 && color.green == 134 && color.blue == 11 {
        Some("darkgoldenrod")
    } else if color.red == 169 && color.green == 169 && color.blue == 169 {
        Some("darkgray")
    } else if color.red == 0 && color.green == 100 && color.blue == 0 {
        Some("darkgreen")
    } else if color.red == 189 && color.green == 183 && color.blue == 107 {
        Some("darkkhaki")
    } else if color.red == 139 && color.green == 0 && color.blue == 139 {
        Some("darkmagenta")
    } else if color.red == 85 && color.green == 107 && color.blue == 47 {
        Some("darkolivegreen")
    } else if color.red == 255 && color.green == 140 && color.blue == 0 {
        Some("darkorange")
    } else if color.red == 153 && color.green == 50 && color.blue == 204 {
        Some("darkorchid")
    } else if color.red == 139 && color.green == 0 && color.blue == 0 {
        Some("darkred")
    } else if color.red == 233 && color.green == 150 && color.blue == 122 {
        Some("darksalmon")
    } else if color.red == 143 && color.green == 188 && color.blue == 143 {
        Some("darksea_green")
    } else if color.red == 72 && color.green == 61 && color.blue == 139 {
        Some("darkslateblue")
    } else if color.red == 47 && color.green == 79 && color.blue == 79 {
        Some("darkslategray")
    } else if color.red == 0 && color.green == 206 && color.blue == 209 {
        Some("darkturquoise")
    } else if color.red == 148 && color.green == 0 && color.blue == 211 {
        Some("darkviolet")
    } else if color.red == 255 && color.green == 20 && color.blue == 147 {
        Some("deeppink")
    } else if color.red == 0 && color.green == 191 && color.blue == 255 {
        Some("deepskyblue")
    } else if color.red == 105 && color.green == 105 && color.blue == 105 {
        Some("dimgray")
    } else if color.red == 30 && color.green == 144 && color.blue == 255 {
        Some("dodgerblue")
    } else if color.red == 178 && color.green == 34 && color.blue == 34 {
        Some("firebrick")
    } else if color.red == 255 && color.green == 250 && color.blue == 240 {
        Some("floralwhite")
    } else if color.red == 34 && color.green == 139 && color.blue == 34 {
        Some("forestgreen")
    } else if color.red == 255 && color.green == 0 && color.blue == 255 {
        Some("fuchsia")
    } else if color.red == 220 && color.green == 220 && color.blue == 220 {
        Some("gainsboro")
    } else if color.red == 248 && color.green == 248 && color.blue == 255 {
        Some("ghostwhite")
    } else if color.red == 255 && color.green == 215 && color.blue == 0 {
        Some("gold")
    } else if color.red == 218 && color.green == 165 && color.blue == 32 {
        Some("goldenrod")
    } else if color.red == 128 && color.green == 128 && color.blue == 128 {
        Some("gray")
    } else if color.red == 0 && color.green == 128 && color.blue == 0 {
        Some("green")
    } else if color.red == 173 && color.green == 255 && color.blue == 47 {
        Some("greenyellow")
    } else if color.red == 240 && color.green == 255 && color.blue == 240 {
        Some("honeydew")
    } else if color.red == 255 && color.green == 105 && color.blue == 180 {
        Some("hotpink")
    } else if color.red == 205 && color.green == 92 && color.blue == 92 {
        Some("indianred")
    } else if color.red == 75 && color.green == 0 && color.blue == 130 {
        Some("indigo")
    } else if color.red == 255 && color.green == 255 && color.blue == 240 {
        Some("ivory")
    } else if color.red == 240 && color.green == 230 && color.blue == 140 {
        Some("khaki")
    } else if color.red == 230 && color.green == 230 && color.blue == 250 {
        Some("lavender")
    } else if color.red == 255 && color.green == 240 && color.blue == 245 {
        Some("lavenderblush")
    } else if color.red == 124 && color.green == 252 && color.blue == 0 {
        Some("lawngreen")
    } else if color.red == 255 && color.green == 250 && color.blue == 205 {
        Some("lemonchiffon")
    } else if color.red == 173 && color.green == 216 && color.blue == 230 {
        Some("lightblue")
    } else if color.red == 240 && color.green == 128 && color.blue == 128 {
        Some("lightcoral")
    } else if color.red == 224 && color.green == 255 && color.blue == 255 {
        Some("lightcyan")
    } else if color.red == 250 && color.green == 250 && color.blue == 210 {
        Some("lightgoldenrodyellow")
    } else if color.red == 211 && color.green == 211 && color.blue == 211 {
        Some("lightgray")
    } else if color.red == 144 && color.green == 238 && color.blue == 144 {
        Some("lightgreen")
    } else if color.red == 255 && color.green == 182 && color.blue == 193 {
        Some("lightpink")
    } else if color.red == 255 && color.green == 160 && color.blue == 122 {
        Some("lightsalmon")
    } else if color.red == 32 && color.green == 178 && color.blue == 170 {
        Some("lightseagreen")
    } else if color.red == 135 && color.green == 206 && color.blue == 250 {
        Some("lightskyblue")
    } else if color.red == 119 && color.green == 136 && color.blue == 153 {
        Some("lightslategray")
    } else if color.red == 176 && color.green == 196 && color.blue == 222 {
        Some("lightsteelblue")
    } else if color.red == 255 && color.green == 255 && color.blue == 224 {
        Some("lightyellow")
    } else if color.red == 0 && color.green == 255 && color.blue == 0 {
        Some("lime")
    } else if color.red == 50 && color.green == 205 && color.blue == 50 {
        Some("limegreen")
    } else if color.red == 250 && color.green == 240 && color.blue == 230 {
        Some("linen")
    } else if color.red == 128 && color.green == 0 && color.blue == 0 {
        Some("maroon")
    } else if color.red == 102 && color.green == 205 && color.blue == 170 {
        Some("mediumaquamarine")
    } else if color.red == 0 && color.green == 0 && color.blue == 205 {
        Some("mediumblue")
    } else if color.red == 186 && color.green == 85 && color.blue == 211 {
        Some("mediumorchid")
    } else if color.red == 147 && color.green == 112 && color.blue == 219 {
        Some("mediumpurple")
    } else if color.red == 60 && color.green == 179 && color.blue == 113 {
        Some("mediumseagreen")
    } else if color.red == 123 && color.green == 104 && color.blue == 238 {
        Some("mediumslateblue")
    } else if color.red == 0 && color.green == 250 && color.blue == 154 {
        Some("mediumspringgreen")
    } else if color.red == 72 && color.green == 209 && color.blue == 204 {
        Some("mediumturquoise")
    } else if color.red == 199 && color.green == 21 && color.blue == 133 {
        Some("mediumvioletred")
    } else if color.red == 25 && color.green == 25 && color.blue == 112 {
        Some("midnightblue")
    } else if color.red == 245 && color.green == 255 && color.blue == 250 {
        Some("mintcream")
    } else if color.red == 255 && color.green == 228 && color.blue == 225 {
        Some("mistyrose")
    } else if color.red == 255 && color.green == 228 && color.blue == 181 {
        Some("moccasin")
    } else if color.red == 255 && color.green == 222 && color.blue == 173 {
        Some("navajowhite")
    } else if color.red == 0 && color.green == 0 && color.blue == 128 {
        Some("navy")
    } else if color.red == 253 && color.green == 245 && color.blue == 230 {
        Some("oldlace")
    } else if color.red == 128 && color.green == 128 && color.blue == 0 {
        Some("olive")
    } else if color.red == 107 && color.green == 142 && color.blue == 35 {
        Some("olivedrab")
    } else if color.red == 255 && color.green == 165 && color.blue == 0 {
        Some("orange")
    } else if color.red == 255 && color.green == 69 && color.blue == 0 {
        Some("orangered")
    } else if color.red == 218 && color.green == 112 && color.blue == 214 {
        Some("orchid")
    } else if color.red == 238 && color.green == 232 && color.blue == 170 {
        Some("palegoldenrod")
    } else if color.red == 152 && color.green == 251 && color.blue == 152 {
        Some("palegreen")
    } else if color.red == 175 && color.green == 238 && color.blue == 238 {
        Some("paleturquoise")
    } else if color.red == 219 && color.green == 112 && color.blue == 147 {
        Some("palevioletred")
    } else if color.red == 255 && color.green == 239 && color.blue == 213 {
        Some("papayawhip")
    } else if color.red == 255 && color.green == 218 && color.blue == 185 {
        Some("peachpuff")
    } else if color.red == 205 && color.green == 133 && color.blue == 63 {
        Some("peru")
    } else if color.red == 255 && color.green == 192 && color.blue == 203 {
        Some("pink")
    } else if color.red == 221 && color.green == 160 && color.blue == 221 {
        Some("plum")
    } else if color.red == 176 && color.green == 224 && color.blue == 230 {
        Some("powderblue")
    } else if color.red == 128 && color.green == 0 && color.blue == 128 {
        Some("purple")
    } else if color.red == 102 && color.green == 51 && color.blue == 153 {
        Some("rebeccapurple")
    } else if color.red == 255 && color.green == 0 && color.blue == 0 {
        Some("red")
    } else if color.red == 188 && color.green == 143 && color.blue == 143 {
        Some("rosybrown")
    } else if color.red == 65 && color.green == 105 && color.blue == 225 {
        Some("royalblue")
    } else if color.red == 139 && color.green == 69 && color.blue == 19 {
        Some("saddlebrown")
    } else if color.red == 250 && color.green == 128 && color.blue == 114 {
        Some("salmon")
    } else if color.red == 244 && color.green == 164 && color.blue == 96 {
        Some("sandybrown")
    } else if color.red == 46 && color.green == 139 && color.blue == 87 {
        Some("seagreen")
    } else if color.red == 255 && color.green == 245 && color.blue == 238 {
        Some("seashell")
    } else if color.red == 160 && color.green == 82 && color.blue == 45 {
        Some("sienna")
    } else if color.red == 192 && color.green == 192 && color.blue == 192 {
        Some("silver")
    } else if color.red == 135 && color.green == 206 && color.blue == 235 {
        Some("skyblue")
    } else if color.red == 106 && color.green == 90 && color.blue == 205 {
        Some("slateblue")
    } else if color.red == 112 && color.green == 128 && color.blue == 144 {
        Some("slategray")
    } else if color.red == 255 && color.green == 250 && color.blue == 250 {
        Some("snow")
    } else if color.red == 0 && color.green == 255 && color.blue == 127 {
        Some("springgreen")
    } else if color.red == 70 && color.green == 130 && color.blue == 180 {
        Some("steelblue")
    } else if color.red == 210 && color.green == 180 && color.blue == 140 {
        Some("tan")
    } else if color.red == 0 && color.green == 128 && color.blue == 128 {
        Some("teal")
    } else if color.red == 216 && color.green == 191 && color.blue == 216 {
        Some("thistle")
    } else if color.red == 255 && color.green == 99 && color.blue == 71 {
        Some("tomato")
    } else if color.red == 64 && color.green == 224 && color.blue == 208 {
        Some("turquoise")
    } else if color.red == 238 && color.green == 130 && color.blue == 238 {
        Some("violet")
    } else if color.red == 245 && color.green == 222 && color.blue == 179 {
        Some("wheat")
    } else if color.red == 255 && color.green == 255 && color.blue == 255 {
        Some("white")
    } else if color.red == 245 && color.green == 245 && color.blue == 245 {
        Some("whitesmoke")
    } else if color.red == 255 && color.green == 255 && color.blue == 0 {
        Some("yellow")
    } else if color.red == 154 && color.green == 205 && color.blue == 50 {
        Some("yellowgreen")
    } else {
        None
    }
}

} // verus!
