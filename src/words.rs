//! The built-in word lists of the default configuration.
use vstd::prelude::*;

verus! {

/// A plain word: non-empty, of lowercase ASCII letters only.
pub open spec fn is_word(w: Seq<char>) -> bool {
    w.len() > 0 && forall|i: int| 0 <= i < w.len() ==> 'a' <= #[trigger] w[i] <= 'z'
}

pub const AMBER: &'static str = "amber";
pub const BRISK: &'static str = "brisk";
pub const COBALT: &'static str = "cobalt";
pub const DAPPER: &'static str = "dapper";
pub const EAGER: &'static str = "eager";
pub const FABLED: &'static str = "fabled";
pub const GALLANT: &'static str = "gallant";
pub const HARDY: &'static str = "hardy";
pub const IVORY: &'static str = "ivory";
pub const JAUNTY: &'static str = "jaunty";
pub const KEEN: &'static str = "keen";
pub const LUNAR: &'static str = "lunar";
pub const MELLOW: &'static str = "mellow";
pub const NIMBLE: &'static str = "nimble";
pub const OPAL: &'static str = "opal";
pub const PLACID: &'static str = "placid";
pub const QUAINT: &'static str = "quaint";
pub const RUSTIC: &'static str = "rustic";
pub const SABLE: &'static str = "sable";
pub const TIDAL: &'static str = "tidal";
pub const UMBER: &'static str = "umber";
pub const VIVID: &'static str = "vivid";
pub const WOOLLY: &'static str = "woolly";
pub const ZESTY: &'static str = "zesty";
pub const AGILE: &'static str = "agile";
pub const BREEZY: &'static str = "breezy";
pub const CANDID: &'static str = "candid";
pub const DUSKY: &'static str = "dusky";
pub const EARNEST: &'static str = "earnest";
pub const FERAL: &'static str = "feral";
pub const GLOSSY: &'static str = "glossy";
pub const HUMBLE: &'static str = "humble";
pub const INKY: &'static str = "inky";
pub const JOVIAL: &'static str = "jovial";
pub const KINDLY: &'static str = "kindly";
pub const LOFTY: &'static str = "lofty";
pub const MOSSY: &'static str = "mossy";
pub const NUTTY: &'static str = "nutty";
pub const OAKEN: &'static str = "oaken";
pub const PEPPY: &'static str = "peppy";
pub const QUIRKY: &'static str = "quirky";
pub const ROSY: &'static str = "rosy";
pub const SANDY: &'static str = "sandy";
pub const TAWNY: &'static str = "tawny";
pub const UPBEAT: &'static str = "upbeat";
pub const VELVET: &'static str = "velvet";
pub const WISTFUL: &'static str = "wistful";
pub const ZIPPY: &'static str = "zippy";
pub const ARCTIC: &'static str = "arctic";
pub const BOUNCY: &'static str = "bouncy";
pub const CHEERY: &'static str = "cheery";
pub const DREAMY: &'static str = "dreamy";
pub const ELFIN: &'static str = "elfin";
pub const FLUFFY: &'static str = "fluffy";
pub const GIDDY: &'static str = "giddy";
pub const HAZEL: &'static str = "hazel";
pub const IDLE: &'static str = "idle";
pub const JUMPY: &'static str = "jumpy";
pub const KNOTTY: &'static str = "knotty";
pub const LEAFY: &'static str = "leafy";
pub const MERRY: &'static str = "merry";
pub const NEEDY: &'static str = "needy";
pub const ODDBALL: &'static str = "oddball";
pub const PERKY: &'static str = "perky";
pub const QUICK: &'static str = "quick";
pub const RAINY: &'static str = "rainy";
pub const SALTY: &'static str = "salty";
pub const TANGY: &'static str = "tangy";
pub const UNRULY: &'static str = "unruly";
pub const VAST: &'static str = "vast";
pub const WITTY: &'static str = "witty";
pub const BRAVE: &'static str = "brave";
pub const CLEVER: &'static str = "clever";
pub const DIZZY: &'static str = "dizzy";
pub const FUZZY: &'static str = "fuzzy";
pub const GUSTY: &'static str = "gusty";
pub const HAPPY: &'static str = "happy";
pub const LAZY: &'static str = "lazy";
pub const LUCID: &'static str = "lucid";
pub const MIGHTY: &'static str = "mighty";
pub const NOBLE: &'static str = "noble";
pub const PLUCKY: &'static str = "plucky";
pub const REGAL: &'static str = "regal";
pub const SLEEPY: &'static str = "sleepy";
pub const SUNNY: &'static str = "sunny";
pub const SWIFT: &'static str = "swift";
pub const THRIFTY: &'static str = "thrifty";
pub const TIMID: &'static str = "timid";

pub const OTTER: &'static str = "otter";
pub const FALCON: &'static str = "falcon";
pub const BADGER: &'static str = "badger";
pub const HERON: &'static str = "heron";
pub const LYNX: &'static str = "lynx";
pub const MARTEN: &'static str = "marten";
pub const WALRUS: &'static str = "walrus";
pub const BEETLE: &'static str = "beetle";
pub const CRICKET: &'static str = "cricket";
pub const GECKO: &'static str = "gecko";
pub const IGUANA: &'static str = "iguana";
pub const JACKAL: &'static str = "jackal";
pub const KOALA: &'static str = "koala";
pub const LEMUR: &'static str = "lemur";
pub const MAGPIE: &'static str = "magpie";
pub const NARWHAL: &'static str = "narwhal";
pub const OCELOT: &'static str = "ocelot";
pub const PANDA: &'static str = "panda";
pub const QUAIL: &'static str = "quail";
pub const RAVEN: &'static str = "raven";
pub const SALMON: &'static str = "salmon";
pub const TAPIR: &'static str = "tapir";
pub const URCHIN: &'static str = "urchin";
pub const VULTURE: &'static str = "vulture";
pub const WOMBAT: &'static str = "wombat";
pub const YAK: &'static str = "yak";
pub const ZEBRA: &'static str = "zebra";
pub const ANCHOR: &'static str = "anchor";
pub const BEACON: &'static str = "beacon";
pub const CANYON: &'static str = "canyon";
pub const DELTA: &'static str = "delta";
pub const EMBER: &'static str = "ember";
pub const FJORD: &'static str = "fjord";
pub const GEYSER: &'static str = "geyser";
pub const HARBOR: &'static str = "harbor";
pub const ISLAND: &'static str = "island";
pub const JUNGLE: &'static str = "jungle";
pub const KETTLE: &'static str = "kettle";
pub const LANTERN: &'static str = "lantern";
pub const MARSH: &'static str = "marsh";
pub const NEBULA: &'static str = "nebula";
pub const OASIS: &'static str = "oasis";
pub const PEBBLE: &'static str = "pebble";
pub const QUARRY: &'static str = "quarry";
pub const RIDGE: &'static str = "ridge";
pub const SUMMIT: &'static str = "summit";
pub const TUNDRA: &'static str = "tundra";
pub const VALLEY: &'static str = "valley";
pub const WILLOW: &'static str = "willow";
pub const ACORN: &'static str = "acorn";
pub const BRAMBLE: &'static str = "bramble";
pub const CACTUS: &'static str = "cactus";
pub const DUNE: &'static str = "dune";
pub const ESTUARY: &'static str = "estuary";
pub const FERN: &'static str = "fern";
pub const GLACIER: &'static str = "glacier";
pub const HOLLOW: &'static str = "hollow";
pub const INLET: &'static str = "inlet";
pub const JUNIPER: &'static str = "juniper";
pub const KELP: &'static str = "kelp";
pub const LAGOON: &'static str = "lagoon";
pub const MAPLE: &'static str = "maple";
pub const NECTAR: &'static str = "nectar";
pub const ORCHARD: &'static str = "orchard";
pub const PRAIRIE: &'static str = "prairie";
pub const QUARTZ: &'static str = "quartz";
pub const REEF: &'static str = "reef";
pub const SEQUOIA: &'static str = "sequoia";
pub const THISTLE: &'static str = "thistle";
pub const UPLAND: &'static str = "upland";
pub const VORTEX: &'static str = "vortex";
pub const WHARF: &'static str = "wharf";
pub const CEDAR: &'static str = "cedar";
pub const COMET: &'static str = "comet";
pub const CRATER: &'static str = "crater";
pub const GARNET: &'static str = "garnet";
pub const HARP: &'static str = "harp";
pub const LOTUS: &'static str = "lotus";
pub const METEOR: &'static str = "meteor";
pub const PYLON: &'static str = "pylon";
pub const ROCKET: &'static str = "rocket";
pub const SADDLE: &'static str = "saddle";
pub const SPRUCE: &'static str = "spruce";

/// The built-in adjectives, in order.
pub open spec fn builtin_adjectives() -> Seq<&'static str> {
    seq![
        AMBER, BRISK, COBALT, DAPPER, EAGER, FABLED, GALLANT, HARDY, IVORY, JAUNTY, KEEN, LUNAR,
        MELLOW, NIMBLE, OPAL, PLACID, QUAINT, RUSTIC, SABLE, TIDAL, UMBER, VIVID, WOOLLY, ZESTY,
        AGILE, BREEZY, CANDID, DUSKY, EARNEST, FERAL, GLOSSY, HUMBLE, INKY, JOVIAL, KINDLY, LOFTY,
        MOSSY, NUTTY, OAKEN, PEPPY, QUIRKY, ROSY, SANDY, TAWNY, UPBEAT, VELVET, WISTFUL, ZIPPY,
        ARCTIC, BOUNCY, CHEERY, DREAMY, ELFIN, FLUFFY, GIDDY, HAZEL, IDLE, JUMPY, KNOTTY, LEAFY,
        MERRY, NEEDY, ODDBALL, PERKY, QUICK, RAINY, SALTY, TANGY, UNRULY, VAST, WITTY, BRAVE,
        CLEVER, DIZZY, FUZZY, GUSTY, HAPPY, LAZY, LUCID, MIGHTY, NOBLE, PLUCKY, REGAL, SLEEPY,
        SUNNY, SWIFT, THRIFTY, TIMID,
    ]
}

/// The built-in nouns, in order.
pub open spec fn builtin_nouns() -> Seq<&'static str> {
    seq![
        OTTER, FALCON, BADGER, HERON, LYNX, MARTEN, WALRUS, BEETLE, CRICKET, GECKO, IGUANA, JACKAL,
        KOALA, LEMUR, MAGPIE, NARWHAL, OCELOT, PANDA, QUAIL, RAVEN, SALMON, TAPIR, URCHIN, VULTURE,
        WOMBAT, YAK, ZEBRA, ANCHOR, BEACON, CANYON, DELTA, EMBER, FJORD, GEYSER, HARBOR, ISLAND,
        JUNGLE, KETTLE, LANTERN, MARSH, NEBULA, OASIS, PEBBLE, QUARRY, RIDGE, SUMMIT, TUNDRA,
        VALLEY, WILLOW, ACORN, BRAMBLE, CACTUS, DUNE, ESTUARY, FERN, GLACIER, HOLLOW, INLET,
        JUNIPER, KELP, LAGOON, MAPLE, NECTAR, ORCHARD, PRAIRIE, QUARTZ, REEF, SEQUOIA, THISTLE,
        UPLAND, VORTEX, WHARF, CEDAR, COMET, CRATER, GARNET, HARP, LOTUS, METEOR, PYLON, ROCKET,
        SADDLE, SPRUCE,
    ]
}

/// The adjectives of the default configuration.
pub fn default_adjectives() -> (r: &'static [&'static str])
    ensures
        r@ == builtin_adjectives(),
        r@.len() > 0,
        forall|i: int| 0 <= i < r@.len() ==> is_word(#[trigger] r@[i]@),
{
    let words: &'static [&'static str] = &[
        AMBER, BRISK, COBALT, DAPPER, EAGER, FABLED, GALLANT, HARDY, IVORY, JAUNTY, KEEN, LUNAR,
        MELLOW, NIMBLE, OPAL, PLACID, QUAINT, RUSTIC, SABLE, TIDAL, UMBER, VIVID, WOOLLY, ZESTY,
        AGILE, BREEZY, CANDID, DUSKY, EARNEST, FERAL, GLOSSY, HUMBLE, INKY, JOVIAL, KINDLY, LOFTY,
        MOSSY, NUTTY, OAKEN, PEPPY, QUIRKY, ROSY, SANDY, TAWNY, UPBEAT, VELVET, WISTFUL, ZIPPY,
        ARCTIC, BOUNCY, CHEERY, DREAMY, ELFIN, FLUFFY, GIDDY, HAZEL, IDLE, JUMPY, KNOTTY, LEAFY,
        MERRY, NEEDY, ODDBALL, PERKY, QUICK, RAINY, SALTY, TANGY, UNRULY, VAST, WITTY, BRAVE,
        CLEVER, DIZZY, FUZZY, GUSTY, HAPPY, LAZY, LUCID, MIGHTY, NOBLE, PLUCKY, REGAL, SLEEPY,
        SUNNY, SWIFT, THRIFTY, TIMID,
    ];
    assert(is_word(AMBER@)) by { reveal_strlit("amber"); }
    assert(is_word(BRISK@)) by { reveal_strlit("brisk"); }
    assert(is_word(COBALT@)) by { reveal_strlit("cobalt"); }
    assert(is_word(DAPPER@)) by { reveal_strlit("dapper"); }
    assert(is_word(EAGER@)) by { reveal_strlit("eager"); }
    assert(is_word(FABLED@)) by { reveal_strlit("fabled"); }
    assert(is_word(GALLANT@)) by { reveal_strlit("gallant"); }
    assert(is_word(HARDY@)) by { reveal_strlit("hardy"); }
    assert(is_word(IVORY@)) by { reveal_strlit("ivory"); }
    assert(is_word(JAUNTY@)) by { reveal_strlit("jaunty"); }
    assert(is_word(KEEN@)) by { reveal_strlit("keen"); }
    assert(is_word(LUNAR@)) by { reveal_strlit("lunar"); }
    assert(is_word(MELLOW@)) by { reveal_strlit("mellow"); }
    assert(is_word(NIMBLE@)) by { reveal_strlit("nimble"); }
    assert(is_word(OPAL@)) by { reveal_strlit("opal"); }
    assert(is_word(PLACID@)) by { reveal_strlit("placid"); }
    assert(is_word(QUAINT@)) by { reveal_strlit("quaint"); }
    assert(is_word(RUSTIC@)) by { reveal_strlit("rustic"); }
    assert(is_word(SABLE@)) by { reveal_strlit("sable"); }
    assert(is_word(TIDAL@)) by { reveal_strlit("tidal"); }
    assert(is_word(UMBER@)) by { reveal_strlit("umber"); }
    assert(is_word(VIVID@)) by { reveal_strlit("vivid"); }
    assert(is_word(WOOLLY@)) by { reveal_strlit("woolly"); }
    assert(is_word(ZESTY@)) by { reveal_strlit("zesty"); }
    assert(is_word(AGILE@)) by { reveal_strlit("agile"); }
    assert(is_word(BREEZY@)) by { reveal_strlit("breezy"); }
    assert(is_word(CANDID@)) by { reveal_strlit("candid"); }
    assert(is_word(DUSKY@)) by { reveal_strlit("dusky"); }
    assert(is_word(EARNEST@)) by { reveal_strlit("earnest"); }
    assert(is_word(FERAL@)) by { reveal_strlit("feral"); }
    assert(is_word(GLOSSY@)) by { reveal_strlit("glossy"); }
    assert(is_word(HUMBLE@)) by { reveal_strlit("humble"); }
    assert(is_word(INKY@)) by { reveal_strlit("inky"); }
    assert(is_word(JOVIAL@)) by { reveal_strlit("jovial"); }
    assert(is_word(KINDLY@)) by { reveal_strlit("kindly"); }
    assert(is_word(LOFTY@)) by { reveal_strlit("lofty"); }
    assert(is_word(MOSSY@)) by { reveal_strlit("mossy"); }
    assert(is_word(NUTTY@)) by { reveal_strlit("nutty"); }
    assert(is_word(OAKEN@)) by { reveal_strlit("oaken"); }
    assert(is_word(PEPPY@)) by { reveal_strlit("peppy"); }
    assert(is_word(QUIRKY@)) by { reveal_strlit("quirky"); }
    assert(is_word(ROSY@)) by { reveal_strlit("rosy"); }
    assert(is_word(SANDY@)) by { reveal_strlit("sandy"); }
    assert(is_word(TAWNY@)) by { reveal_strlit("tawny"); }
    assert(is_word(UPBEAT@)) by { reveal_strlit("upbeat"); }
    assert(is_word(VELVET@)) by { reveal_strlit("velvet"); }
    assert(is_word(WISTFUL@)) by { reveal_strlit("wistful"); }
    assert(is_word(ZIPPY@)) by { reveal_strlit("zippy"); }
    assert(is_word(ARCTIC@)) by { reveal_strlit("arctic"); }
    assert(is_word(BOUNCY@)) by { reveal_strlit("bouncy"); }
    assert(is_word(CHEERY@)) by { reveal_strlit("cheery"); }
    assert(is_word(DREAMY@)) by { reveal_strlit("dreamy"); }
    assert(is_word(ELFIN@)) by { reveal_strlit("elfin"); }
    assert(is_word(FLUFFY@)) by { reveal_strlit("fluffy"); }
    assert(is_word(GIDDY@)) by { reveal_strlit("giddy"); }
    assert(is_word(HAZEL@)) by { reveal_strlit("hazel"); }
    assert(is_word(IDLE@)) by { reveal_strlit("idle"); }
    assert(is_word(JUMPY@)) by { reveal_strlit("jumpy"); }
    assert(is_word(KNOTTY@)) by { reveal_strlit("knotty"); }
    assert(is_word(LEAFY@)) by { reveal_strlit("leafy"); }
    assert(is_word(MERRY@)) by { reveal_strlit("merry"); }
    assert(is_word(NEEDY@)) by { reveal_strlit("needy"); }
    assert(is_word(ODDBALL@)) by { reveal_strlit("oddball"); }
    assert(is_word(PERKY@)) by { reveal_strlit("perky"); }
    assert(is_word(QUICK@)) by { reveal_strlit("quick"); }
    assert(is_word(RAINY@)) by { reveal_strlit("rainy"); }
    assert(is_word(SALTY@)) by { reveal_strlit("salty"); }
    assert(is_word(TANGY@)) by { reveal_strlit("tangy"); }
    assert(is_word(UNRULY@)) by { reveal_strlit("unruly"); }
    assert(is_word(VAST@)) by { reveal_strlit("vast"); }
    assert(is_word(WITTY@)) by { reveal_strlit("witty"); }
    assert(is_word(BRAVE@)) by { reveal_strlit("brave"); }
    assert(is_word(CLEVER@)) by { reveal_strlit("clever"); }
    assert(is_word(DIZZY@)) by { reveal_strlit("dizzy"); }
    assert(is_word(FUZZY@)) by { reveal_strlit("fuzzy"); }
    assert(is_word(GUSTY@)) by { reveal_strlit("gusty"); }
    assert(is_word(HAPPY@)) by { reveal_strlit("happy"); }
    assert(is_word(LAZY@)) by { reveal_strlit("lazy"); }
    assert(is_word(LUCID@)) by { reveal_strlit("lucid"); }
    assert(is_word(MIGHTY@)) by { reveal_strlit("mighty"); }
    assert(is_word(NOBLE@)) by { reveal_strlit("noble"); }
    assert(is_word(PLUCKY@)) by { reveal_strlit("plucky"); }
    assert(is_word(REGAL@)) by { reveal_strlit("regal"); }
    assert(is_word(SLEEPY@)) by { reveal_strlit("sleepy"); }
    assert(is_word(SUNNY@)) by { reveal_strlit("sunny"); }
    assert(is_word(SWIFT@)) by { reveal_strlit("swift"); }
    assert(is_word(THRIFTY@)) by { reveal_strlit("thrifty"); }
    assert(is_word(TIMID@)) by { reveal_strlit("timid"); }
    assert(words@ =~= builtin_adjectives());
    words
}

/// The nouns of the default configuration.
pub fn default_nouns() -> (r: &'static [&'static str])
    ensures
        r@ == builtin_nouns(),
        r@.len() > 0,
        forall|i: int| 0 <= i < r@.len() ==> is_word(#[trigger] r@[i]@),
{
    let words: &'static [&'static str] = &[
        OTTER, FALCON, BADGER, HERON, LYNX, MARTEN, WALRUS, BEETLE, CRICKET, GECKO, IGUANA, JACKAL,
        KOALA, LEMUR, MAGPIE, NARWHAL, OCELOT, PANDA, QUAIL, RAVEN, SALMON, TAPIR, URCHIN, VULTURE,
        WOMBAT, YAK, ZEBRA, ANCHOR, BEACON, CANYON, DELTA, EMBER, FJORD, GEYSER, HARBOR, ISLAND,
        JUNGLE, KETTLE, LANTERN, MARSH, NEBULA, OASIS, PEBBLE, QUARRY, RIDGE, SUMMIT, TUNDRA,
        VALLEY, WILLOW, ACORN, BRAMBLE, CACTUS, DUNE, ESTUARY, FERN, GLACIER, HOLLOW, INLET,
        JUNIPER, KELP, LAGOON, MAPLE, NECTAR, ORCHARD, PRAIRIE, QUARTZ, REEF, SEQUOIA, THISTLE,
        UPLAND, VORTEX, WHARF, CEDAR, COMET, CRATER, GARNET, HARP, LOTUS, METEOR, PYLON, ROCKET,
        SADDLE, SPRUCE,
    ];
    assert(is_word(OTTER@)) by { reveal_strlit("otter"); }
    assert(is_word(FALCON@)) by { reveal_strlit("falcon"); }
    assert(is_word(BADGER@)) by { reveal_strlit("badger"); }
    assert(is_word(HERON@)) by { reveal_strlit("heron"); }
    assert(is_word(LYNX@)) by { reveal_strlit("lynx"); }
    assert(is_word(MARTEN@)) by { reveal_strlit("marten"); }
    assert(is_word(WALRUS@)) by { reveal_strlit("walrus"); }
    assert(is_word(BEETLE@)) by { reveal_strlit("beetle"); }
    assert(is_word(CRICKET@)) by { reveal_strlit("cricket"); }
    assert(is_word(GECKO@)) by { reveal_strlit("gecko"); }
    assert(is_word(IGUANA@)) by { reveal_strlit("iguana"); }
    assert(is_word(JACKAL@)) by { reveal_strlit("jackal"); }
    assert(is_word(KOALA@)) by { reveal_strlit("koala"); }
    assert(is_word(LEMUR@)) by { reveal_strlit("lemur"); }
    assert(is_word(MAGPIE@)) by { reveal_strlit("magpie"); }
    assert(is_word(NARWHAL@)) by { reveal_strlit("narwhal"); }
    assert(is_word(OCELOT@)) by { reveal_strlit("ocelot"); }
    assert(is_word(PANDA@)) by { reveal_strlit("panda"); }
    assert(is_word(QUAIL@)) by { reveal_strlit("quail"); }
    assert(is_word(RAVEN@)) by { reveal_strlit("raven"); }
    assert(is_word(SALMON@)) by { reveal_strlit("salmon"); }
    assert(is_word(TAPIR@)) by { reveal_strlit("tapir"); }
    assert(is_word(URCHIN@)) by { reveal_strlit("urchin"); }
    assert(is_word(VULTURE@)) by { reveal_strlit("vulture"); }
    assert(is_word(WOMBAT@)) by { reveal_strlit("wombat"); }
    assert(is_word(YAK@)) by { reveal_strlit("yak"); }
    assert(is_word(ZEBRA@)) by { reveal_strlit("zebra"); }
    assert(is_word(ANCHOR@)) by { reveal_strlit("anchor"); }
    assert(is_word(BEACON@)) by { reveal_strlit("beacon"); }
    assert(is_word(CANYON@)) by { reveal_strlit("canyon"); }
    assert(is_word(DELTA@)) by { reveal_strlit("delta"); }
    assert(is_word(EMBER@)) by { reveal_strlit("ember"); }
    assert(is_word(FJORD@)) by { reveal_strlit("fjord"); }
    assert(is_word(GEYSER@)) by { reveal_strlit("geyser"); }
    assert(is_word(HARBOR@)) by { reveal_strlit("harbor"); }
    assert(is_word(ISLAND@)) by { reveal_strlit("island"); }
    assert(is_word(JUNGLE@)) by { reveal_strlit("jungle"); }
    assert(is_word(KETTLE@)) by { reveal_strlit("kettle"); }
    assert(is_word(LANTERN@)) by { reveal_strlit("lantern"); }
    assert(is_word(MARSH@)) by { reveal_strlit("marsh"); }
    assert(is_word(NEBULA@)) by { reveal_strlit("nebula"); }
    assert(is_word(OASIS@)) by { reveal_strlit("oasis"); }
    assert(is_word(PEBBLE@)) by { reveal_strlit("pebble"); }
    assert(is_word(QUARRY@)) by { reveal_strlit("quarry"); }
    assert(is_word(RIDGE@)) by { reveal_strlit("ridge"); }
    assert(is_word(SUMMIT@)) by { reveal_strlit("summit"); }
    assert(is_word(TUNDRA@)) by { reveal_strlit("tundra"); }
    assert(is_word(VALLEY@)) by { reveal_strlit("valley"); }
    assert(is_word(WILLOW@)) by { reveal_strlit("willow"); }
    assert(is_word(ACORN@)) by { reveal_strlit("acorn"); }
    assert(is_word(BRAMBLE@)) by { reveal_strlit("bramble"); }
    assert(is_word(CACTUS@)) by { reveal_strlit("cactus"); }
    assert(is_word(DUNE@)) by { reveal_strlit("dune"); }
    assert(is_word(ESTUARY@)) by { reveal_strlit("estuary"); }
    assert(is_word(FERN@)) by { reveal_strlit("fern"); }
    assert(is_word(GLACIER@)) by { reveal_strlit("glacier"); }
    assert(is_word(HOLLOW@)) by { reveal_strlit("hollow"); }
    assert(is_word(INLET@)) by { reveal_strlit("inlet"); }
    assert(is_word(JUNIPER@)) by { reveal_strlit("juniper"); }
    assert(is_word(KELP@)) by { reveal_strlit("kelp"); }
    assert(is_word(LAGOON@)) by { reveal_strlit("lagoon"); }
    assert(is_word(MAPLE@)) by { reveal_strlit("maple"); }
    assert(is_word(NECTAR@)) by { reveal_strlit("nectar"); }
    assert(is_word(ORCHARD@)) by { reveal_strlit("orchard"); }
    assert(is_word(PRAIRIE@)) by { reveal_strlit("prairie"); }
    assert(is_word(QUARTZ@)) by { reveal_strlit("quartz"); }
    assert(is_word(REEF@)) by { reveal_strlit("reef"); }
    assert(is_word(SEQUOIA@)) by { reveal_strlit("sequoia"); }
    assert(is_word(THISTLE@)) by { reveal_strlit("thistle"); }
    assert(is_word(UPLAND@)) by { reveal_strlit("upland"); }
    assert(is_word(VORTEX@)) by { reveal_strlit("vortex"); }
    assert(is_word(WHARF@)) by { reveal_strlit("wharf"); }
    assert(is_word(CEDAR@)) by { reveal_strlit("cedar"); }
    assert(is_word(COMET@)) by { reveal_strlit("comet"); }
    assert(is_word(CRATER@)) by { reveal_strlit("crater"); }
    assert(is_word(GARNET@)) by { reveal_strlit("garnet"); }
    assert(is_word(HARP@)) by { reveal_strlit("harp"); }
    assert(is_word(LOTUS@)) by { reveal_strlit("lotus"); }
    assert(is_word(METEOR@)) by { reveal_strlit("meteor"); }
    assert(is_word(PYLON@)) by { reveal_strlit("pylon"); }
    assert(is_word(ROCKET@)) by { reveal_strlit("rocket"); }
    assert(is_word(SADDLE@)) by { reveal_strlit("saddle"); }
    assert(is_word(SPRUCE@)) by { reveal_strlit("spruce"); }
    assert(words@ =~= builtin_nouns());
    words
}

} // verus!
