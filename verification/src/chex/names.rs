//! Named colors.

use vstd::prelude::*;

use crate::text::str_eq;

verus! {

/// The value of the named color `s`, for each of the named colors of CSS.
pub open spec fn named_color(s: Seq<char>) -> Option<u32> {
    if s == "aliceblue"@ {
        Some(0xf0f8ffu32)
    } else if s == "antiquewhite"@ {
        Some(0xfaebd7u32)
    } else if s == "aqua"@ {
        Some(0x00ffffu32)
    } else if s == "aquamarine"@ {
        Some(0x7fffd4u32)
    } else if s == "azure"@ {
        Some(0xf0ffffu32)
    } else if s == "beige"@ {
        Some(0xf5f5dcu32)
    } else if s == "bisque"@ {
        Some(0xffe4c4u32)
    } else if s == "black"@ {
        Some(0x000000u32)
    } else if s == "blanchedalmond"@ {
        Some(0xffebcdu32)
    } else if s == "blue"@ {
        Some(0x0000ffu32)
    } else if s == "blueviolet"@ {
        Some(0x8a2be2u32)
    } else if s == "brown"@ {
        Some(0xa52a2au32)
    } else if s == "burlywood"@ {
        Some(0xdeb887u32)
    } else if s == "cadetblue"@ {
        Some(0x5f9ea0u32)
    } else if s == "chartreuse"@ {
        Some(0x7fff00u32)
    } else if s == "chocolate"@ {
        Some(0xd2691eu32)
    } else if s == "coral"@ {
        Some(0xff7f50u32)
    } else if s == "cornflowerblue"@ {
        Some(0x6495edu32)
    } else if s == "cornsilk"@ {
        Some(0xfff8dcu32)
    } else if s == "crimson"@ {
        Some(0xdc143cu32)
    } else if s == "cyan"@ {
        Some(0x00ffffu32)
    } else if s == "darkblue"@ {
        Some(0x00008bu32)
    } else if s == "darkcyan"@ {
        Some(0x008b8bu32)
    } else if s == "darkgoldenrod"@ {
        Some(0xb8860bu32)
    } else if s == "darkgray"@ {
        Some(0xa9a9a9u32)
    } else if s == "darkgreen"@ {
        Some(0x006400u32)
    } else if s == "darkgrey"@ {
        Some(0xa9a9a9u32)
    } else if s == "darkkhaki"@ {
        Some(0xbdb76bu32)
    } else if s == "darkmagenta"@ {
        Some(0x8b008bu32)
    } else if s == "darkolivegreen"@ {
        Some(0x556b2fu32)
    } else if s == "darkorange"@ {
        Some(0xff8c00u32)
    } else if s == "darkorchid"@ {
        Some(0x9932ccu32)
    } else if s == "darkred"@ {
        Some(0x8b0000u32)
    } else if s == "darksalmon"@ {
        Some(0xe9967au32)
    } else if s == "darkseagreen"@ {
        Some(0x8fbc8fu32)
    } else if s == "darkslateblue"@ {
        Some(0x483d8bu32)
    } else if s == "darkslategray"@ {
        Some(0x2f4f4fu32)
    } else if s == "darkslategrey"@ {
        Some(0x2f4f4fu32)
    } else if s == "darkturquoise"@ {
        Some(0x00ced1u32)
    } else if s == "darkviolet"@ {
        Some(0x9400d3u32)
    } else if s == "deeppink"@ {
        Some(0xff1493u32)
    } else if s == "deepskyblue"@ {
        Some(0x00bfffu32)
    } else if s == "dimgray"@ {
        Some(0x696969u32)
    } else if s == "dimgrey"@ {
        Some(0x696969u32)
    } else if s == "dodgerblue"@ {
        Some(0x1e90ffu32)
    } else if s == "firebrick"@ {
        Some(0xb22222u32)
    } else if s == "floralwhite"@ {
        Some(0xfffaf0u32)
    } else if s == "forestgreen"@ {
        Some(0x228b22u32)
    } else if s == "fuchsia"@ {
        Some(0xff00ffu32)
    } else if s == "gainsboro"@ {
        Some(0xdcdcdcu32)
    } else if s == "ghostwhite"@ {
        Some(0xf8f8ffu32)
    } else if s == "gold"@ {
        Some(0xffd700u32)
    } else if s == "goldenrod"@ {
        Some(0xdaa520u32)
    } else if s == "gray"@ {
        Some(0x808080u32)
    } else if s == "green"@ {
        Some(0x008000u32)
    } else if s == "greenyellow"@ {
        Some(0xadff2fu32)
    } else if s == "grey"@ {
        Some(0x808080u32)
    } else if s == "honeydew"@ {
        Some(0xf0fff0u32)
    } else if s == "hotpink"@ {
        Some(0xff69b4u32)
    } else if s == "indianred"@ {
        Some(0xcd5c5cu32)
    } else if s == "indigo"@ {
        Some(0x4b0082u32)
    } else if s == "ivory"@ {
        Some(0xfffff0u32)
    } else if s == "khaki"@ {
        Some(0xf0e68cu32)
    } else if s == "lavender"@ {
        Some(0xe6e6fau32)
    } else if s == "lavenderblush"@ {
        Some(0xfff0f5u32)
    } else if s == "lawngreen"@ {
        Some(0x7cfc00u32)
    } else if s == "lemonchiffon"@ {
        Some(0xfffacdu32)
    } else if s == "lightblue"@ {
        Some(0xadd8e6u32)
    } else if s == "lightcoral"@ {
        Some(0xf08080u32)
    } else if s == "lightcyan"@ {
        Some(0xe0ffffu32)
    } else if s == "lightgoldenrodyellow"@ {
        Some(0xfafad2u32)
    } else if s == "lightgray"@ {
        Some(0xd3d3d3u32)
    } else if s == "lightgreen"@ {
        Some(0x90ee90u32)
    } else if s == "lightgrey"@ {
        Some(0xd3d3d3u32)
    } else if s == "lightpink"@ {
        Some(0xffb6c1u32)
    } else if s == "lightsalmon"@ {
        Some(0xffa07au32)
    } else if s == "lightseagreen"@ {
        Some(0x20b2aau32)
    } else if s == "lightskyblue"@ {
        Some(0x87cefau32)
    } else if s == "lightslategray"@ {
        Some(0x778899u32)
    } else if s == "lightslategrey"@ {
        Some(0x778899u32)
    } else if s == "lightsteelblue"@ {
        Some(0xb0c4deu32)
    } else if s == "lightyellow"@ {
        Some(0xffffe0u32)
    } else if s == "lime"@ {
        Some(0x00ff00u32)
    } else if s == "limegreen"@ {
        Some(0x32cd32u32)
    } else if s == "linen"@ {
        Some(0xfaf0e6u32)
    } else if s == "magenta"@ {
        Some(0xff00ffu32)
    } else if s == "maroon"@ {
        Some(0x800000u32)
    } else if s == "mediumaquamarine"@ {
        Some(0x66cdaau32)
    } else if s == "mediumblue"@ {
        Some(0x0000cdu32)
    } else if s == "mediumorchid"@ {
        Some(0xba55d3u32)
    } else if s == "mediumpurple"@ {
        Some(0x9370dbu32)
    } else if s == "mediumseagreen"@ {
        Some(0x3cb371u32)
    } else if s == "mediumslateblue"@ {
        Some(0x7b68eeu32)
    } else if s == "mediumspringgreen"@ {
        Some(0x00fa9au32)
    } else if s == "mediumturquoise"@ {
        Some(0x48d1ccu32)
    } else if s == "mediumvioletred"@ {
        Some(0xc71585u32)
    } else if s == "midnightblue"@ {
        Some(0x191970u32)
    } else if s == "mintcream"@ {
        Some(0xf5fffau32)
    } else if s == "mistyrose"@ {
        Some(0xffe4e1u32)
    } else if s == "moccasin"@ {
        Some(0xffe4b5u32)
    } else if s == "navajowhite"@ {
        Some(0xffdeadu32)
    } else if s == "navy"@ {
        Some(0x000080u32)
    } else if s == "oldlace"@ {
        Some(0xfdf5e6u32)
    } else if s == "olive"@ {
        Some(0x808000u32)
    } else if s == "olivedrab"@ {
        Some(0x6b8e23u32)
    } else if s == "orange"@ {
        Some(0xffa500u32)
    } else if s == "orangered"@ {
        Some(0xff4500u32)
    } else if s == "orchid"@ {
        Some(0xda70d6u32)
    } else if s == "palegoldenrod"@ {
        Some(0xeee8aau32)
    } else if s == "palegreen"@ {
        Some(0x98fb98u32)
    } else if s == "paleturquoise"@ {
        Some(0xafeeeeu32)
    } else if s == "palevioletred"@ {
        Some(0xdb7093u32)
    } else if s == "papayawhip"@ {
        Some(0xffefd5u32)
    } else if s == "peachpuff"@ {
        Some(0xffdab9u32)
    } else if s == "peru"@ {
        Some(0xcd853fu32)
    } else if s == "pink"@ {
        Some(0xffc0cbu32)
    } else if s == "plum"@ {
        Some(0xdda0ddu32)
    } else if s == "powderblue"@ {
        Some(0xb0e0e6u32)
    } else if s == "purple"@ {
        Some(0x800080u32)
    } else if s == "rebeccapurple"@ {
        Some(0x663399u32)
    } else if s == "red"@ {
        Some(0xff0000u32)
    } else if s == "rosybrown"@ {
        Some(0xbc8f8fu32)
    } else if s == "royalblue"@ {
        Some(0x4169e1u32)
    } else if s == "saddlebrown"@ {
        Some(0x8b4513u32)
    } else if s == "salmon"@ {
        Some(0xfa8072u32)
    } else if s == "sandybrown"@ {
        Some(0xf4a460u32)
    } else if s == "seagreen"@ {
        Some(0x2e8b57u32)
    } else if s == "seashell"@ {
        Some(0xfff5eeu32)
    } else if s == "sienna"@ {
        Some(0xa0522du32)
    } else if s == "silver"@ {
        Some(0xc0c0c0u32)
    } else if s == "skyblue"@ {
        Some(0x87ceebu32)
    } else if s == "slateblue"@ {
        Some(0x6a5acdu32)
    } else if s == "slategray"@ {
        Some(0x708090u32)
    } else if s == "slategrey"@ {
        Some(0x708090u32)
    } else if s == "snow"@ {
        Some(0xfffafau32)
    } else if s == "springgreen"@ {
        Some(0x00ff7fu32)
    } else if s == "steelblue"@ {
        Some(0x4682b4u32)
    } else if s == "tan"@ {
        Some(0xd2b48cu32)
    } else if s == "teal"@ {
        Some(0x008080u32)
    } else if s == "thistle"@ {
        Some(0xd8bfd8u32)
    } else if s == "tomato"@ {
        Some(0xff6347u32)
    } else if s == "turquoise"@ {
        Some(0x40e0d0u32)
    } else if s == "violet"@ {
        Some(0xee82eeu32)
    } else if s == "wheat"@ {
        Some(0xf5deb3u32)
    } else if s == "white"@ {
        Some(0xffffffu32)
    } else if s == "whitesmoke"@ {
        Some(0xf5f5f5u32)
    } else if s == "yellow"@ {
        Some(0xffff00u32)
    } else if s == "yellowgreen"@ {
        Some(0x9acd32u32)
    } else {
        None
    }
}

/// Looks up a named color.
#[verifier::rlimit(60)]
pub fn lookup(s: &str) -> (r: Option<u32>)
    ensures
        r == named_color(s@),
{
    if str_eq(s, "aliceblue") {
        Some(0xf0f8ff)
    } else if str_eq(s, "antiquewhite") {
        Some(0xfaebd7)
    } else if str_eq(s, "aqua") {
        Some(0x00ffff)
    } else if str_eq(s, "aquamarine") {
        Some(0x7fffd4)
    } else if str_eq(s, "azure") {
        Some(0xf0ffff)
    } else if str_eq(s, "beige") {
        Some(0xf5f5dc)
    } else if str_eq(s, "bisque") {
        Some(0xffe4c4)
    } else if str_eq(s, "black") {
        Some(0x000000)
    } else if str_eq(s, "blanchedalmond") {
        Some(0xffebcd)
    } else if str_eq(s, "blue") {
        Some(0x0000ff)
    } else if str_eq(s, "blueviolet") {
        Some(0x8a2be2)
    } else if str_eq(s, "brown") {
        Some(0xa52a2a)
    } else if str_eq(s, "burlywood") {
        Some(0xdeb887)
    } else if str_eq(s, "cadetblue") {
        Some(0x5f9ea0)
    } else if str_eq(s, "chartreuse") {
        Some(0x7fff00)
    } else if str_eq(s, "chocolate") {
        Some(0xd2691e)
    } else if str_eq(s, "coral") {
        Some(0xff7f50)
    } else if str_eq(s, "cornflowerblue") {
        Some(0x6495ed)
    } else if str_eq(s, "cornsilk") {
        Some(0xfff8dc)
    } else if str_eq(s, "crimson") {
        Some(0xdc143c)
    } else if str_eq(s, "cyan") {
        Some(0x00ffff)
    } else if str_eq(s, "darkblue") {
        Some(0x00008b)
    } else if str_eq(s, "darkcyan") {
        Some(0x008b8b)
    } else if str_eq(s, "darkgoldenrod") {
        Some(0xb8860b)
    } else if str_eq(s, "darkgray") {
        Some(0xa9a9a9)
    } else if str_eq(s, "darkgreen") {
        Some(0x006400)
    } else if str_eq(s, "darkgrey") {
        Some(0xa9a9a9)
    } else if str_eq(s, "darkkhaki") {
        Some(0xbdb76b)
    } else if str_eq(s, "darkmagenta") {
        Some(0x8b008b)
    } else if str_eq(s, "darkolivegreen") {
        Some(0x556b2f)
    } else if str_eq(s, "darkorange") {
        Some(0xff8c00)
    } else if str_eq(s, "darkorchid") {
        Some(0x9932cc)
    } else if str_eq(s, "darkred") {
        Some(0x8b0000)
    } else if str_eq(s, "darksalmon") {
        Some(0xe9967a)
    } else if str_eq(s, "darkseagreen") {
        Some(0x8fbc8f)
    } else if str_eq(s, "darkslateblue") {
        Some(0x483d8b)
    } else if str_eq(s, "darkslategray") {
        Some(0x2f4f4f)
    } else if str_eq(s, "darkslategrey") {
        Some(0x2f4f4f)
    } else if str_eq(s, "darkturquoise") {
        Some(0x00ced1)
    } else if str_eq(s, "darkviolet") {
        Some(0x9400d3)
    } else if str_eq(s, "deeppink") {
        Some(0xff1493)
    } else if str_eq(s, "deepskyblue") {
        Some(0x00bfff)
    } else if str_eq(s, "dimgray") {
        Some(0x696969)
    } else if str_eq(s, "dimgrey") {
        Some(0x696969)
    } else if str_eq(s, "dodgerblue") {
        Some(0x1e90ff)
    } else if str_eq(s, "firebrick") {
        Some(0xb22222)
    } else if str_eq(s, "floralwhite") {
        Some(0xfffaf0)
    } else if str_eq(s, "forestgreen") {
        Some(0x228b22)
    } else if str_eq(s, "fuchsia") {
        Some(0xff00ff)
    } else if str_eq(s, "gainsboro") {
        Some(0xdcdcdc)
    } else if str_eq(s, "ghostwhite") {
        Some(0xf8f8ff)
    } else if str_eq(s, "gold") {
        Some(0xffd700)
    } else if str_eq(s, "goldenrod") {
        Some(0xdaa520)
    } else if str_eq(s, "gray") {
        Some(0x808080)
    } else if str_eq(s, "green") {
        Some(0x008000)
    } else if str_eq(s, "greenyellow") {
        Some(0xadff2f)
    } else if str_eq(s, "grey") {
        Some(0x808080)
    } else if str_eq(s, "honeydew") {
        Some(0xf0fff0)
    } else if str_eq(s, "hotpink") {
        Some(0xff69b4)
    } else if str_eq(s, "indianred") {
        Some(0xcd5c5c)
    } else if str_eq(s, "indigo") {
        Some(0x4b0082)
    } else if str_eq(s, "ivory") {
        Some(0xfffff0)
    } else if str_eq(s, "khaki") {
        Some(0xf0e68c)
    } else if str_eq(s, "lavender") {
        Some(0xe6e6fa)
    } else if str_eq(s, "lavenderblush") {
        Some(0xfff0f5)
    } else if str_eq(s, "lawngreen") {
        Some(0x7cfc00)
    } else if str_eq(s, "lemonchiffon") {
        Some(0xfffacd)
    } else if str_eq(s, "lightblue") {
        Some(0xadd8e6)
    } else if str_eq(s, "lightcoral") {
        Some(0xf08080)
    } else if str_eq(s, "lightcyan") {
        Some(0xe0ffff)
    } else if str_eq(s, "lightgoldenrodyellow") {
        Some(0xfafad2)
    } else if str_eq(s, "lightgray") {
        Some(0xd3d3d3)
    } else if str_eq(s, "lightgreen") {
        Some(0x90ee90)
    } else if str_eq(s, "lightgrey") {
        Some(0xd3d3d3)
    } else if str_eq(s, "lightpink") {
        Some(0xffb6c1)
    } else if str_eq(s, "lightsalmon") {
        Some(0xffa07a)
    } else if str_eq(s, "lightseagreen") {
        Some(0x20b2aa)
    } else if str_eq(s, "lightskyblue") {
        Some(0x87cefa)
    } else if str_eq(s, "lightslategray") {
        Some(0x778899)
    } else if str_eq(s, "lightslategrey") {
        Some(0x778899)
    } else if str_eq(s, "lightsteelblue") {
        Some(0xb0c4de)
    } else if str_eq(s, "lightyellow") {
        Some(0xffffe0)
    } else if str_eq(s, "lime") {
        Some(0x00ff00)
    } else if str_eq(s, "limegreen") {
        Some(0x32cd32)
    } else if str_eq(s, "linen") {
        Some(0xfaf0e6)
    } else if str_eq(s, "magenta") {
        Some(0xff00ff)
    } else if str_eq(s, "maroon") {
        Some(0x800000)
    } else if str_eq(s, "mediumaquamarine") {
        Some(0x66cdaa)
    } else if str_eq(s, "mediumblue") {
        Some(0x0000cd)
    } else if str_eq(s, "mediumorchid") {
        Some(0xba55d3)
    } else if str_eq(s, "mediumpurple") {
        Some(0x9370db)
    } else if str_eq(s, "mediumseagreen") {
        Some(0x3cb371)
    } else if str_eq(s, "mediumslateblue") {
        Some(0x7b68ee)
    } else if str_eq(s, "mediumspringgreen") {
        Some(0x00fa9a)
    } else if str_eq(s, "mediumturquoise") {
        Some(0x48d1cc)
    } else if str_eq(s, "mediumvioletred") {
        Some(0xc71585)
    } else if str_eq(s, "midnightblue") {
        Some(0x191970)
    } else if str_eq(s, "mintcream") {
        Some(0xf5fffa)
    } else if str_eq(s, "mistyrose") {
        Some(0xffe4e1)
    } else if str_eq(s, "moccasin") {
        Some(0xffe4b5)
    } else if str_eq(s, "navajowhite") {
        Some(0xffdead)
    } else if str_eq(s, "navy") {
        Some(0x000080)
    } else if str_eq(s, "oldlace") {
        Some(0xfdf5e6)
    } else if str_eq(s, "olive") {
        Some(0x808000)
    } else if str_eq(s, "olivedrab") {
        Some(0x6b8e23)
    } else if str_eq(s, "orange") {
        Some(0xffa500)
    } else if str_eq(s, "orangered") {
        Some(0xff4500)
    } else if str_eq(s, "orchid") {
        Some(0xda70d6)
    } else if str_eq(s, "palegoldenrod") {
        Some(0xeee8aa)
    } else if str_eq(s, "palegreen") {
        Some(0x98fb98)
    } else if str_eq(s, "paleturquoise") {
        Some(0xafeeee)
    } else if str_eq(s, "palevioletred") {
        Some(0xdb7093)
    } else if str_eq(s, "papayawhip") {
        Some(0xffefd5)
    } else if str_eq(s, "peachpuff") {
        Some(0xffdab9)
    } else if str_eq(s, "peru") {
        Some(0xcd853f)
    } else if str_eq(s, "pink") {
        Some(0xffc0cb)
    } else if str_eq(s, "plum") {
        Some(0xdda0dd)
    } else if str_eq(s, "powderblue") {
        Some(0xb0e0e6)
    } else if str_eq(s, "purple") {
        Some(0x800080)
    } else if str_eq(s, "rebeccapurple") {
        Some(0x663399)
    } else if str_eq(s, "red") {
        Some(0xff0000)
    } else if str_eq(s, "rosybrown") {
        Some(0xbc8f8f)
    } else if str_eq(s, "royalblue") {
        Some(0x4169e1)
    } else if str_eq(s, "saddlebrown") {
        Some(0x8b4513)
    } else if str_eq(s, "salmon") {
        Some(0xfa8072)
    } else if str_eq(s, "sandybrown") {
        Some(0xf4a460)
    } else if str_eq(s, "seagreen") {
        Some(0x2e8b57)
    } else if str_eq(s, "seashell") {
        Some(0xfff5ee)
    } else if str_eq(s, "sienna") {
        Some(0xa0522d)
    } else if str_eq(s, "silver") {
        Some(0xc0c0c0)
    } else if str_eq(s, "skyblue") {
        Some(0x87ceeb)
    } else if str_eq(s, "slateblue") {
        Some(0x6a5acd)
    } else if str_eq(s, "slategray") {
        Some(0x708090)
    } else if str_eq(s, "slategrey") {
        Some(0x708090)
    } else if str_eq(s, "snow") {
        Some(0xfffafa)
    } else if str_eq(s, "springgreen") {
        Some(0x00ff7f)
    } else if str_eq(s, "steelblue") {
        Some(0x4682b4)
    } else if str_eq(s, "tan") {
        Some(0xd2b48c)
    } else if str_eq(s, "teal") {
        Some(0x008080)
    } else if str_eq(s, "thistle") {
        Some(0xd8bfd8)
    } else if str_eq(s, "tomato") {
        Some(0xff6347)
    } else if str_eq(s, "turquoise") {
        Some(0x40e0d0)
    } else if str_eq(s, "violet") {
        Some(0xee82ee)
    } else if str_eq(s, "wheat") {
        Some(0xf5deb3)
    } else if str_eq(s, "white") {
        Some(0xffffff)
    } else if str_eq(s, "whitesmoke") {
        Some(0xf5f5f5)
    } else if str_eq(s, "yellow") {
        Some(0xffff00)
    } else if str_eq(s, "yellowgreen") {
        Some(0x9acd32)
    } else {
        None
    }
}

} // verus!
