//! Character classes and their ascendancies.

use crate::text::{lowercase_of, text_eq};
use vstd::prelude::*;

verus! {

/// One of the six base character classes.
#[derive(Debug, Clone, Copy, PartialEq, Eq, Structural)]
pub enum CharacterClass {
    Mercenary,
    Monk,
    Ranger,
    Sorceress,
    Warrior,
    Witch,
}

/// One of the twelve specializations; each belongs to exactly one base class.
#[derive(Debug, Clone, Copy, PartialEq, Eq, Structural)]
pub enum ClassAscendency {
    Witchhunter,
    GemlingLegionnaire,
    AcolyteOfChayula,
    Invoker,
    Deadeye,
    Pathfinder,
    Chronomancer,
    Stormweaver,
    Titan,
    Warbringer,
    BloodMage,
    Infernalist,
}

impl CharacterClass {
    /// The canonical display string of the class.
    pub open spec fn display_text(self) -> Seq<char> {
        match self {
            Self::Mercenary => "Mercenary"@,
            Self::Monk => "Monk"@,
            Self::Ranger => "Ranger"@,
            Self::Sorceress => "Sorceress"@,
            Self::Warrior => "Warrior"@,
            Self::Witch => "Witch"@,
        }
    }

    /// The key under which the status sink knows this class's icon.
    pub open spec fn icon_key(self) -> Seq<char> {
        match self {
            Self::Mercenary => "mercenary"@,
            Self::Monk => "monk"@,
            Self::Ranger => "ranger"@,
            Self::Sorceress => "sorceress"@,
            Self::Warrior => "warrior"@,
            Self::Witch => "witch"@,
        }
    }

    /// The two ascendancies of the class.
    pub open spec fn ascendencies(self) -> Seq<ClassAscendency> {
        match self {
            Self::Mercenary => seq![
                ClassAscendency::Witchhunter,
                ClassAscendency::GemlingLegionnaire,
            ],
            Self::Monk => seq![ClassAscendency::AcolyteOfChayula, ClassAscendency::Invoker],
            Self::Ranger => seq![ClassAscendency::Deadeye, ClassAscendency::Pathfinder],
            Self::Sorceress => seq![ClassAscendency::Chronomancer, ClassAscendency::Stormweaver],
            Self::Warrior => seq![ClassAscendency::Titan, ClassAscendency::Warbringer],
            Self::Witch => seq![ClassAscendency::BloodMage, ClassAscendency::Infernalist],
        }
    }

    /// The class that a lowercase name stands for.
    pub open spec fn named(lower: Seq<char>) -> Option<Self> {
        if lower == "mercenary"@ {
            Some(Self::Mercenary)
        } else if lower == "monk"@ {
            Some(Self::Monk)
        } else if lower == "ranger"@ {
            Some(Self::Ranger)
        } else if lower == "sorceress"@ {
            Some(Self::Sorceress)
        } else if lower == "warrior"@ {
            Some(Self::Warrior)
        } else if lower == "witch"@ {
            Some(Self::Witch)
        } else {
            None
        }
    }

    /// The class that a name stands for, whatever its case.
    pub open spec fn parsed(name: Seq<char>) -> Option<Self> {
        Self::named(lowercase_of(name))
    }

    pub fn get_ascendencies(&self) -> (pair: Option<[ClassAscendency; 2]>)
        ensures
            pair matches Some(both) && both@ == self.ascendencies(),
    {
        let both = match self {
            Self::Mercenary => [ClassAscendency::Witchhunter, ClassAscendency::GemlingLegionnaire],
            Self::Monk => [ClassAscendency::AcolyteOfChayula, ClassAscendency::Invoker],
            Self::Ranger => [ClassAscendency::Deadeye, ClassAscendency::Pathfinder],
            Self::Sorceress => [ClassAscendency::Chronomancer, ClassAscendency::Stormweaver],
            Self::Warrior => [ClassAscendency::Titan, ClassAscendency::Warbringer],
            Self::Witch => [ClassAscendency::BloodMage, ClassAscendency::Infernalist],
        };
        assert(both@ =~= self.ascendencies());
        Some(both)
    }

    pub fn get_discord_image_name(&self) -> (key: &'static str)
        ensures
            key@ == self.icon_key(),
    {
        match self {
            Self::Mercenary => "mercenary",
            Self::Monk => "monk",
            Self::Ranger => "ranger",
            Self::Sorceress => "sorceress",
            Self::Warrior => "warrior",
            Self::Witch => "witch",
        }
    }

    /// The canonical display string of the class.
    pub fn display_name(&self) -> (name: &'static str)
        ensures
            name@ == self.display_text(),
    {
        match self {
            Self::Mercenary => "Mercenary",
            Self::Monk => "Monk",
            Self::Ranger => "Ranger",
            Self::Sorceress => "Sorceress",
            Self::Warrior => "Warrior",
            Self::Witch => "Witch",
        }
    }

    /// The class that a name stands for once the name is in lowercase.
    pub fn from_lowercase(lower: &str) -> (class: Option<Self>)
        ensures
            class == Self::named(lower@),
    {
        if text_eq(lower, "mercenary") {
            Some(Self::Mercenary)
        } else if text_eq(lower, "monk") {
            Some(Self::Monk)
        } else if text_eq(lower, "ranger") {
            Some(Self::Ranger)
        } else if text_eq(lower, "sorceress") {
            Some(Self::Sorceress)
        } else if text_eq(lower, "warrior") {
            Some(Self::Warrior)
        } else if text_eq(lower, "witch") {
            Some(Self::Witch)
        } else {
            None
        }
    }
}

impl CharacterClass {
    /// The display string of the class, as an owned string.
    pub fn to_string(&self) -> (name: String)
        ensures
            name@ == self.display_text(),
    {
        self.display_name().to_owned()
    }
}

impl core::str::FromStr for CharacterClass {
    type Err = ();

    /// Reads a class name, whatever its case.
    fn from_str(s: &str) -> (class: Result<Self, ()>)
        ensures
            class == match CharacterClass::parsed(s@) {
                Some(c) => Ok::<CharacterClass, ()>(c),
                None => Err(()),
            },
    {
        let lower = s.to_lowercase();
        match CharacterClass::from_lowercase(lower.as_str()) {
            Some(c) => Ok(c),
            None => Err(()),
        }
    }
}

impl ClassAscendency {
    /// The base class that this ascendancy specializes.
    pub open spec fn class_of(self) -> CharacterClass {
        match self {
            Self::Witchhunter | Self::GemlingLegionnaire => CharacterClass::Mercenary,
            Self::AcolyteOfChayula | Self::Invoker => CharacterClass::Monk,
            Self::Deadeye | Self::Pathfinder => CharacterClass::Ranger,
            Self::Chronomancer | Self::Stormweaver => CharacterClass::Sorceress,
            Self::Titan | Self::Warbringer => CharacterClass::Warrior,
            Self::BloodMage | Self::Infernalist => CharacterClass::Witch,
        }
    }

    /// The key under which the status sink knows this ascendancy's icon.
    pub open spec fn icon_key(self) -> Seq<char> {
        match self {
            Self::Witchhunter => "mercenary_witchhunter"@,
            Self::GemlingLegionnaire => "mercenary_gemling_legionnaire"@,
            Self::AcolyteOfChayula => "monk_acolyte_of_chayula"@,
            Self::Invoker => "monk_invoker"@,
            Self::Deadeye => "ranger_deadeye"@,
            Self::Pathfinder => "ranger_pathfinder"@,
            Self::Chronomancer => "sorceress_chronomancer"@,
            Self::Stormweaver => "sorceress_stormweaver"@,
            Self::Titan => "warrior_titan"@,
            Self::Warbringer => "warrior_warbringer"@,
            Self::BloodMage => "witch_blood_mage"@,
            Self::Infernalist => "witch_infernalist"@,
        }
    }

    /// The canonical display string of the ascendancy.
    pub open spec fn display_text(self) -> Seq<char> {
        match self {
            Self::Witchhunter => "Witchhunter"@,
            Self::GemlingLegionnaire => "Gemling Legionnaire"@,
            Self::AcolyteOfChayula => "Acolyte of Chayula"@,
            Self::Invoker => "Invoker"@,
            Self::Deadeye => "Deadeye"@,
            Self::Pathfinder => "Pathfinder"@,
            Self::Chronomancer => "Chronomancer"@,
            Self::Stormweaver => "Stormweaver"@,
            Self::Titan => "Titan"@,
            Self::Warbringer => "Warbringer"@,
            Self::BloodMage => "Blood Mage"@,
            Self::Infernalist => "Infernalist"@,
        }
    }

    /// The ascendancy that a lowercase name stands for. Spaces count.
    pub open spec fn named(lower: Seq<char>) -> Option<Self> {
        if lower == "witchhunter"@ {
            Some(Self::Witchhunter)
        } else if lower == "gemling legionnaire"@ {
            Some(Self::GemlingLegionnaire)
        } else if lower == "acolyte of chayula"@ {
            Some(Self::AcolyteOfChayula)
        } else if lower == "invoker"@ {
            Some(Self::Invoker)
        } else if lower == "deadeye"@ {
            Some(Self::Deadeye)
        } else if lower == "pathfinder"@ {
            Some(Self::Pathfinder)
        } else if lower == "chronomancer"@ {
            Some(Self::Chronomancer)
        } else if lower == "stormweaver"@ {
            Some(Self::Stormweaver)
        } else if lower == "titan"@ {
            Some(Self::Titan)
        } else if lower == "warbringer"@ {
            Some(Self::Warbringer)
        } else if lower == "blood mage"@ {
            Some(Self::BloodMage)
        } else if lower == "infernalist"@ {
            Some(Self::Infernalist)
        } else {
            None
        }
    }

    /// The ascendancy that a name stands for, whatever its case.
    pub open spec fn parsed(name: Seq<char>) -> Option<Self> {
        Self::named(lowercase_of(name))
    }

    pub fn get_class(&self) -> (class: CharacterClass)
        ensures
            class == self.class_of(),
    {
        match self {
            Self::Witchhunter | Self::GemlingLegionnaire => CharacterClass::Mercenary,
            Self::AcolyteOfChayula | Self::Invoker => CharacterClass::Monk,
            Self::Deadeye | Self::Pathfinder => CharacterClass::Ranger,
            Self::Chronomancer | Self::Stormweaver => CharacterClass::Sorceress,
            Self::Titan | Self::Warbringer => CharacterClass::Warrior,
            Self::BloodMage | Self::Infernalist => CharacterClass::Witch,
        }
    }

    pub fn get_discord_image_name(&self) -> (key: &'static str)
        ensures
            key@ == self.icon_key(),
    {
        match self {
            Self::Witchhunter => "mercenary_witchhunter",
            Self::GemlingLegionnaire => "mercenary_gemling_legionnaire",
            Self::AcolyteOfChayula => "monk_acolyte_of_chayula",
            Self::Invoker => "monk_invoker",
            Self::Deadeye => "ranger_deadeye",
            Self::Pathfinder => "ranger_pathfinder",
            Self::Chronomancer => "sorceress_chronomancer",
            Self::Stormweaver => "sorceress_stormweaver",
            Self::Titan => "warrior_titan",
            Self::Warbringer => "warrior_warbringer",
            Self::BloodMage => "witch_blood_mage",
            Self::Infernalist => "witch_infernalist",
        }
    }

    /// The canonical display string of the ascendancy.
    pub fn display_name(&self) -> (name: &'static str)
        ensures
            name@ == self.display_text(),
    {
        match self {
            Self::Witchhunter => "Witchhunter",
            Self::GemlingLegionnaire => "Gemling Legionnaire",
            Self::AcolyteOfChayula => "Acolyte of Chayula",
            Self::Invoker => "Invoker",
            Self::Deadeye => "Deadeye",
            Self::Pathfinder => "Pathfinder",
            Self::Chronomancer => "Chronomancer",
            Self::Stormweaver => "Stormweaver",
            Self::Titan => "Titan",
            Self::Warbringer => "Warbringer",
            Self::BloodMage => "Blood Mage",
            Self::Infernalist => "Infernalist",
        }
    }

    /// The display string of the ascendancy, as an owned string.
    pub fn to_string(&self) -> (name: String)
        ensures
            name@ == self.display_text(),
    {
        self.display_name().to_owned()
    }

    /// The ascendancy that a name stands for once the name is in lowercase.
    pub fn from_lowercase(lower: &str) -> (ascendency: Option<Self>)
        ensures
            ascendency == Self::named(lower@),
    {
        if text_eq(lower, "witchhunter") {
            Some(Self::Witchhunter)
        } else if text_eq(lower, "gemling legionnaire") {
            Some(Self::GemlingLegionnaire)
        } else if text_eq(lower, "acolyte of chayula") {
            Some(Self::AcolyteOfChayula)
        } else if text_eq(lower, "invoker") {
            Some(Self::Invoker)
        } else if text_eq(lower, "deadeye") {
            Some(Self::Deadeye)
        } else if text_eq(lower, "pathfinder") {
            Some(Self::Pathfinder)
        } else if text_eq(lower, "chronomancer") {
            Some(Self::Chronomancer)
        } else if text_eq(lower, "stormweaver") {
            Some(Self::Stormweaver)
        } else if text_eq(lower, "titan") {
            Some(Self::Titan)
        } else if text_eq(lower, "warbringer") {
            Some(Self::Warbringer)
        } else if text_eq(lower, "blood mage") {
            Some(Self::BloodMage)
        } else if text_eq(lower, "infernalist") {
            Some(Self::Infernalist)
        } else {
            None
        }
    }
}

impl core::str::FromStr for ClassAscendency {
    type Err = ();

    /// Reads an ascendancy name, whatever its case.
    fn from_str(s: &str) -> (ascendency: Result<Self, ()>)
        ensures
            ascendency == match ClassAscendency::parsed(s@) {
                Some(a) => Ok::<ClassAscendency, ()>(a),
                None => Err(()),
            },
    {
        let lower = s.to_lowercase();
        match ClassAscendency::from_lowercase(lower.as_str()) {
            Some(a) => Ok(a),
            None => Err(()),
        }
    }
}

/// What a lowercase name in a level-up line resolves to: an ascendancy with
/// its base class if it names one, else a base class alone if it names one.
pub open spec fn resolved_lowercase(lower: Seq<char>) -> Option<
    (CharacterClass, Option<ClassAscendency>),
> {
    match ClassAscendency::named(lower) {
        Some(ascendency) => Some((ascendency.class_of(), Some(ascendency))),
        None => match CharacterClass::named(lower) {
            Some(class) => Some((class, None)),
            None => None,
        },
    }
}

/// What a class-or-ascendancy name resolves to, whatever its case.
pub open spec fn resolved(name: Seq<char>) -> Option<(CharacterClass, Option<ClassAscendency>)> {
    resolved_lowercase(lowercase_of(name))
}

/// Resolves a name that is already in lowercase: the ascendancies are tried
/// first, then the base classes.
pub fn resolve_lowercase(lower: &str) -> (found: Option<(CharacterClass, Option<ClassAscendency>)>)
    ensures
        found == resolved_lowercase(lower@),
{
    match ClassAscendency::from_lowercase(lower) {
        Some(ascendency) => Some((ascendency.get_class(), Some(ascendency))),
        None => match CharacterClass::from_lowercase(lower) {
            Some(class) => Some((class, None)),
            None => None,
        },
    }
}

/// Resolves the class-or-ascendancy name of a level-up line, whatever its
/// case.
pub fn resolve_class_name(name: &str) -> (found: Option<(CharacterClass, Option<ClassAscendency>)>)
    ensures
        found == resolved(name@),
{
    let lower = name.to_lowercase();
    resolve_lowercase(lower.as_str())
}

/// Every class has exactly two ascendancies, and an ascendancy is one of a
/// class's two exactly when that class is its base class.
pub proof fn lemma_ascendencies_partition(class: CharacterClass, ascendency: ClassAscendency)
    ensures
        class.ascendencies().len() == 2,
        class.ascendencies()[0] != class.ascendencies()[1],
        class.ascendencies().contains(ascendency) <==> ascendency.class_of() == class,
{
    let both = class.ascendencies();
    assert(both[0].class_of() == class && both[1].class_of() == class);
    if ascendency.class_of() == class {
        assert(both[0] == ascendency || both[1] == ascendency);
    }
}

proof fn reveal_icon_keys()
    ensures
        CharacterClass::Mercenary.icon_key().len() == 9,
        CharacterClass::Mercenary.icon_key()[0] == 'm',
        CharacterClass::Monk.icon_key().len() == 4,
        CharacterClass::Ranger.icon_key().len() == 6,
        CharacterClass::Sorceress.icon_key().len() == 9,
        CharacterClass::Sorceress.icon_key()[0] == 's',
        CharacterClass::Warrior.icon_key().len() == 7,
        CharacterClass::Witch.icon_key().len() == 5,
        ClassAscendency::Witchhunter.icon_key().len() == 21,
        ClassAscendency::Witchhunter.icon_key()[0] == 'm',
        ClassAscendency::GemlingLegionnaire.icon_key().len() == 29,
        ClassAscendency::AcolyteOfChayula.icon_key().len() == 23,
        ClassAscendency::Invoker.icon_key().len() == 12,
        ClassAscendency::Deadeye.icon_key().len() == 14,
        ClassAscendency::Pathfinder.icon_key().len() == 17,
        ClassAscendency::Pathfinder.icon_key()[0] == 'r',
        ClassAscendency::Chronomancer.icon_key().len() == 22,
        ClassAscendency::Stormweaver.icon_key().len() == 21,
        ClassAscendency::Stormweaver.icon_key()[0] == 's',
        ClassAscendency::Titan.icon_key().len() == 13,
        ClassAscendency::Warbringer.icon_key().len() == 18,
        ClassAscendency::BloodMage.icon_key().len() == 16,
        ClassAscendency::Infernalist.icon_key().len() == 17,
        ClassAscendency::Infernalist.icon_key()[0] == 'w',
{
    reveal_strlit("mercenary");
    reveal_strlit("monk");
    reveal_strlit("ranger");
    reveal_strlit("sorceress");
    reveal_strlit("warrior");
    reveal_strlit("witch");
    reveal_strlit("mercenary_witchhunter");
    reveal_strlit("mercenary_gemling_legionnaire");
    reveal_strlit("monk_acolyte_of_chayula");
    reveal_strlit("monk_invoker");
    reveal_strlit("ranger_deadeye");
    reveal_strlit("ranger_pathfinder");
    reveal_strlit("sorceress_chronomancer");
    reveal_strlit("sorceress_stormweaver");
    reveal_strlit("warrior_titan");
    reveal_strlit("warrior_warbringer");
    reveal_strlit("witch_blood_mage");
    reveal_strlit("witch_infernalist");
}

/// No two classes share an icon key, no two ascendancies do, and no class
/// shares one with an ascendancy.
pub proof fn lemma_icon_keys_distinct(
    class: CharacterClass,
    other_class: CharacterClass,
    ascendency: ClassAscendency,
    other_ascendency: ClassAscendency,
)
    ensures
        class.icon_key() == other_class.icon_key() ==> class == other_class,
        ascendency.icon_key() == other_ascendency.icon_key() ==> ascendency == other_ascendency,
        class.icon_key() != ascendency.icon_key(),
{
    reveal_icon_keys();
    if class != other_class && class.icon_key().len() == other_class.icon_key().len() {
        assert(class.icon_key()[0] != other_class.icon_key()[0]);
    }
    if ascendency != other_ascendency && ascendency.icon_key().len()
        == other_ascendency.icon_key().len() {
        assert(ascendency.icon_key()[0] != other_ascendency.icon_key()[0]);
    }
}

} // verus!
