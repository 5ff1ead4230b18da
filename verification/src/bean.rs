//! The five table schemas and their small helper records.
//!
//! Every entity kind carries a stable integer identifier; ordering and
//! equality used by the tables go by that identifier alone.  The enumerations
//! are persisted as integer codes, so the code maps here are a wire contract.

use vstd::prelude::*;
use core::cmp::Ordering;

verus! {

/// Race of a playable unit.  The trailing `Mod1..Mod8` slots are reserved
/// for third-party race additions.
#[derive(Debug, Clone, Copy, PartialEq, Eq, Structural)]
pub enum ERaceType {
    NoneRace,
    Item,
    Cat,
    Dog,
    Bird,
    Bug,
    Fish,
    Dragon,
    Snake,
    Hoofed,
    Lizard,
    Rodents,
    Molluscs,
    Furry,
    Mod1,
    Mod2,
    Mod3,
    Mod4,
    Mod5,
    Mod6,
    Mod7,
    Mod8,
}

impl Default for ERaceType {
    fn default() -> (r: Self)
        ensures
            r == ERaceType::NoneRace,
    {
        ERaceType::NoneRace
    }
}

impl View for ERaceType {
    type V = ERaceType;

    open spec fn view(&self) -> ERaceType {
        *self
    }
}

impl DeepView for ERaceType {
    type V = ERaceType;

    open spec fn deep_view(&self) -> ERaceType {
        *self
    }
}

/// The integer code under which a race is persisted.
pub open spec fn race_code_spec(r: ERaceType) -> i32 {
    match r {
        ERaceType::NoneRace => 0,
        ERaceType::Item => 1,
        ERaceType::Cat => 2,
        ERaceType::Dog => 3,
        ERaceType::Bird => 4,
        ERaceType::Bug => 5,
        ERaceType::Fish => 6,
        ERaceType::Dragon => 7,
        ERaceType::Snake => 8,
        ERaceType::Hoofed => 9,
        ERaceType::Lizard => 10,
        ERaceType::Rodents => 11,
        ERaceType::Molluscs => 12,
        ERaceType::Furry => 13,
        ERaceType::Mod1 => 14,
        ERaceType::Mod2 => 15,
        ERaceType::Mod3 => 16,
        ERaceType::Mod4 => 17,
        ERaceType::Mod5 => 18,
        ERaceType::Mod6 => 19,
        ERaceType::Mod7 => 20,
        ERaceType::Mod8 => 21,
    }
}

/// The race persisted under an integer code, if the code is in use.
pub open spec fn race_from_code_spec(c: i32) -> Option<ERaceType> {
    if c == 0 { Some(ERaceType::NoneRace) }
    else if c == 1 { Some(ERaceType::Item) }
    else if c == 2 { Some(ERaceType::Cat) }
    else if c == 3 { Some(ERaceType::Dog) }
    else if c == 4 { Some(ERaceType::Bird) }
    else if c == 5 { Some(ERaceType::Bug) }
    else if c == 6 { Some(ERaceType::Fish) }
    else if c == 7 { Some(ERaceType::Dragon) }
    else if c == 8 { Some(ERaceType::Snake) }
    else if c == 9 { Some(ERaceType::Hoofed) }
    else if c == 10 { Some(ERaceType::Lizard) }
    else if c == 11 { Some(ERaceType::Rodents) }
    else if c == 12 { Some(ERaceType::Molluscs) }
    else if c == 13 { Some(ERaceType::Furry) }
    else if c == 14 { Some(ERaceType::Mod1) }
    else if c == 15 { Some(ERaceType::Mod2) }
    else if c == 16 { Some(ERaceType::Mod3) }
    else if c == 17 { Some(ERaceType::Mod4) }
    else if c == 18 { Some(ERaceType::Mod5) }
    else if c == 19 { Some(ERaceType::Mod6) }
    else if c == 20 { Some(ERaceType::Mod7) }
    else if c == 21 { Some(ERaceType::Mod8) }
    else { None }
}

/// Decoding a race's own code yields that race back.
pub proof fn lemma_race_code_roundtrip(r: ERaceType)
    ensures
        race_from_code_spec(race_code_spec(r)) == Some(r),
{
}

pub fn race_code(r: ERaceType) -> (c: i32)
    ensures
        c == race_code_spec(r),
{
    match r {
        ERaceType::NoneRace => 0,
        ERaceType::Item => 1,
        ERaceType::Cat => 2,
        ERaceType::Dog => 3,
        ERaceType::Bird => 4,
        ERaceType::Bug => 5,
        ERaceType::Fish => 6,
        ERaceType::Dragon => 7,
        ERaceType::Snake => 8,
        ERaceType::Hoofed => 9,
        ERaceType::Lizard => 10,
        ERaceType::Rodents => 11,
        ERaceType::Molluscs => 12,
        ERaceType::Furry => 13,
        ERaceType::Mod1 => 14,
        ERaceType::Mod2 => 15,
        ERaceType::Mod3 => 16,
        ERaceType::Mod4 => 17,
        ERaceType::Mod5 => 18,
        ERaceType::Mod6 => 19,
        ERaceType::Mod7 => 20,
        ERaceType::Mod8 => 21,
    }
}

pub fn race_from_code(c: i32) -> (r: Option<ERaceType>)
    ensures
        r == race_from_code_spec(c),
{
    if c == 0 { Some(ERaceType::NoneRace) }
    else if c == 1 { Some(ERaceType::Item) }
    else if c == 2 { Some(ERaceType::Cat) }
    else if c == 3 { Some(ERaceType::Dog) }
    else if c == 4 { Some(ERaceType::Bird) }
    else if c == 5 { Some(ERaceType::Bug) }
    else if c == 6 { Some(ERaceType::Fish) }
    else if c == 7 { Some(ERaceType::Dragon) }
    else if c == 8 { Some(ERaceType::Snake) }
    else if c == 9 { Some(ERaceType::Hoofed) }
    else if c == 10 { Some(ERaceType::Lizard) }
    else if c == 11 { Some(ERaceType::Rodents) }
    else if c == 12 { Some(ERaceType::Molluscs) }
    else if c == 13 { Some(ERaceType::Furry) }
    else if c == 14 { Some(ERaceType::Mod1) }
    else if c == 15 { Some(ERaceType::Mod2) }
    else if c == 16 { Some(ERaceType::Mod3) }
    else if c == 17 { Some(ERaceType::Mod4) }
    else if c == 18 { Some(ERaceType::Mod5) }
    else if c == 19 { Some(ERaceType::Mod6) }
    else if c == 20 { Some(ERaceType::Mod7) }
    else if c == 21 { Some(ERaceType::Mod8) }
    else { None }
}

/// Rarity tier of a relic or unit.
#[derive(Debug, Clone, Copy, PartialEq, Eq, Structural)]
pub enum ERare {
    NoneRare,
    Common,
    Rare,
    Legend,
    Epic,
    Mythic,
}

impl Default for ERare {
    fn default() -> (r: Self)
        ensures
            r == ERare::NoneRare,
    {
        ERare::NoneRare
    }
}

/// Special text-composition mode of a description line.
#[derive(Debug, Clone, Copy, PartialEq, Eq, Structural)]
pub enum Etip {
    NoneTip,
    Sum,
    Before,
    Prob,
    SumEnd,
    Near,
}

impl Default for Etip {
    fn default() -> (r: Self)
        ensures
            r == Etip::NoneTip,
    {
        Etip::NoneTip
    }
}

impl View for Etip {
    type V = Etip;

    open spec fn view(&self) -> Etip {
        *self
    }
}

impl DeepView for Etip {
    type V = Etip;

    open spec fn deep_view(&self) -> Etip {
        *self
    }
}

/// The integer code under which a description tip is persisted.
pub open spec fn tip_code_spec(t: Etip) -> i32 {
    match t {
        Etip::NoneTip => 0,
        Etip::Sum => 1,
        Etip::Before => 2,
        Etip::Prob => 3,
        Etip::SumEnd => 4,
        Etip::Near => 5,
    }
}

/// The description tip persisted under an integer code, if the code is in use.
pub open spec fn tip_from_code_spec(c: i32) -> Option<Etip> {
    if c == 0 { Some(Etip::NoneTip) }
    else if c == 1 { Some(Etip::Sum) }
    else if c == 2 { Some(Etip::Before) }
    else if c == 3 { Some(Etip::Prob) }
    else if c == 4 { Some(Etip::SumEnd) }
    else if c == 5 { Some(Etip::Near) }
    else { None }
}

/// Decoding a tip's own code yields that tip back.
pub proof fn lemma_tip_code_roundtrip(t: Etip)
    ensures
        tip_from_code_spec(tip_code_spec(t)) == Some(t),
{
}

pub fn tip_code(t: Etip) -> (c: i32)
    ensures
        c == tip_code_spec(t),
{
    match t {
        Etip::NoneTip => 0,
        Etip::Sum => 1,
        Etip::Before => 2,
        Etip::Prob => 3,
        Etip::SumEnd => 4,
        Etip::Near => 5,
    }
}

pub fn tip_from_code(c: i32) -> (r: Option<Etip>)
    ensures
        r == tip_from_code_spec(c),
{
    if c == 0 { Some(Etip::NoneTip) }
    else if c == 1 { Some(Etip::Sum) }
    else if c == 2 { Some(Etip::Before) }
    else if c == 3 { Some(Etip::Prob) }
    else if c == 4 { Some(Etip::SumEnd) }
    else if c == 5 { Some(Etip::Near) }
    else { None }
}

/// One (attribute id, value) pair of a unit's initial attributes.
#[derive(Debug, Clone, Copy, PartialEq, Eq, Structural)]
pub struct ElementAttribute {
    pub id: i32,
    pub value: i32,
}

impl Default for ElementAttribute {
    fn default() -> (r: Self)
        ensures
            r == (ElementAttribute { id: 0, value: 0 }),
    {
        ElementAttribute { id: 0, value: 0 }
    }
}

impl View for ElementAttribute {
    type V = ElementAttribute;

    open spec fn view(&self) -> ElementAttribute {
        *self
    }
}

impl DeepView for ElementAttribute {
    type V = ElementAttribute;

    open spec fn deep_view(&self) -> ElementAttribute {
        *self
    }
}

/// One group of values handed to a unit's trigger action.
#[derive(Debug, Clone, PartialEq, Eq)]
pub struct ElementTriggerValue {
    pub value: Vec<i32>,
}

impl Default for ElementTriggerValue {
    fn default() -> (r: Self)
        ensures
            r.value@ == Seq::<i32>::empty(),
    {
        ElementTriggerValue { value: Vec::new() }
    }
}

/// Mathematical value of an [`ElementTriggerValue`].
pub ghost struct TriggerValueV {
    pub value: Seq<i32>,
}

impl View for ElementTriggerValue {
    type V = TriggerValueV;

    open spec fn view(&self) -> TriggerValueV {
        TriggerValueV { value: self.value@ }
    }
}

impl DeepView for ElementTriggerValue {
    type V = TriggerValueV;

    open spec fn deep_view(&self) -> TriggerValueV {
        self.view()
    }
}

/// How an entity is unlocked.
#[derive(Debug, Clone, Copy, PartialEq, Eq, Structural)]
pub struct UnlockCondition {
    pub unlock_type: i32,
    pub condition: i32,
}

impl Default for UnlockCondition {
    fn default() -> (r: Self)
        ensures
            r == (UnlockCondition { unlock_type: 0, condition: 0 }),
    {
        UnlockCondition { unlock_type: 0, condition: 0 }
    }
}

/// The manifest record written once when a mod package is scaffolded.
#[derive(Debug, Clone, PartialEq, Eq)]
pub struct ModData {
    pub name: String,
    pub desc: String,
    pub entity: bool,
    pub enemy: bool,
    pub version: String,
    pub card: bool,
}

/// Mathematical value of a [`ModData`].
pub ghost struct ModDataV {
    pub name: Seq<char>,
    pub desc: Seq<char>,
    pub entity: bool,
    pub enemy: bool,
    pub version: Seq<char>,
    pub card: bool,
}

impl View for ModData {
    type V = ModDataV;

    open spec fn view(&self) -> ModDataV {
        ModDataV {
            name: self.name@,
            desc: self.desc@,
            entity: self.entity,
            enemy: self.enemy,
            version: self.version@,
            card: self.card,
        }
    }
}

impl Default for ModData {
    fn default() -> (r: Self)
        ensures
            r@ == (ModDataV {
                name: Seq::<char>::empty(),
                desc: Seq::<char>::empty(),
                entity: false,
                enemy: false,
                version: Seq::<char>::empty(),
                card: false,
            }),
    {
        ModData {
            name: String::new(),
            desc: String::new(),
            entity: false,
            enemy: false,
            version: String::new(),
            card: false,
        }
    }
}

/// One row of the localization table: an id and four language texts.
#[derive(Debug, Clone, PartialEq, Eq)]
pub struct Localization {
    pub id: i32,
    pub cn: String,
    pub en: String,
    pub jp: String,
    pub cnt: String,
}

/// Mathematical value of a [`Localization`].
pub ghost struct LocalizationV {
    pub id: i32,
    pub cn: Seq<char>,
    pub en: Seq<char>,
    pub jp: Seq<char>,
    pub cnt: Seq<char>,
}

impl View for Localization {
    type V = LocalizationV;

    open spec fn view(&self) -> LocalizationV {
        LocalizationV {
            id: self.id,
            cn: self.cn@,
            en: self.en@,
            jp: self.jp@,
            cnt: self.cnt@,
        }
    }
}

impl DeepView for Localization {
    type V = LocalizationV;

    open spec fn deep_view(&self) -> LocalizationV {
        self.view()
    }
}

impl Default for Localization {
    fn default() -> (r: Self)
        ensures
            r@ == (LocalizationV {
                id: 0,
                cn: Seq::<char>::empty(),
                en: Seq::<char>::empty(),
                jp: Seq::<char>::empty(),
                cnt: Seq::<char>::empty(),
            }),
    {
        Localization {
            id: 0,
            cn: String::new(),
            en: String::new(),
            jp: String::new(),
            cnt: String::new(),
        }
    }
}

/// One row of the race attribute table.
#[derive(Debug, Clone, PartialEq, Eq)]
pub struct RaceAttribute {
    pub id: i32,
    pub icon: String,
    pub name_id: i32,
    pub desc_id: i32,
}

/// Mathematical value of a [`RaceAttribute`].
pub ghost struct RaceAttributeV {
    pub id: i32,
    pub icon: Seq<char>,
    pub name_id: i32,
    pub desc_id: i32,
}

impl View for RaceAttribute {
    type V = RaceAttributeV;

    open spec fn view(&self) -> RaceAttributeV {
        RaceAttributeV {
            id: self.id,
            icon: self.icon@,
            name_id: self.name_id,
            desc_id: self.desc_id,
        }
    }
}

impl DeepView for RaceAttribute {
    type V = RaceAttributeV;

    open spec fn deep_view(&self) -> RaceAttributeV {
        self.view()
    }
}

impl Default for RaceAttribute {
    fn default() -> (r: Self)
        ensures
            r@ == (RaceAttributeV {
                id: 0,
                icon: Seq::<char>::empty(),
                name_id: 0,
                desc_id: 0,
            }),
    {
        RaceAttribute {
            id: 0,
            icon: String::new(),
            name_id: 0,
            desc_id: 0,
        }
    }
}

/// One row of the enemy table: a flat numeric record.
#[derive(Debug, Clone, PartialEq, Eq)]
pub struct Enemy {
    pub id: i32,
    pub icon: String,
    pub name_id: i32,
    pub desc_id: i32,
    pub map: i32,
    pub level: i32,
    pub boss: i32,
    pub hp: i32,
    pub attack: i32,
    pub upgrade_attack: i32,
    pub endless_hp: i32,
    pub endless_attack: i32,
    pub endless_upgrade: i32,
    pub gold: i32,
    pub gold_max: i32,
    pub attack_sound: i32,
    pub show_sound: i32,
}

/// Mathematical value of an [`Enemy`].
pub ghost struct EnemyV {
    pub id: i32,
    pub icon: Seq<char>,
    pub name_id: i32,
    pub desc_id: i32,
    pub map: i32,
    pub level: i32,
    pub boss: i32,
    pub hp: i32,
    pub attack: i32,
    pub upgrade_attack: i32,
    pub endless_hp: i32,
    pub endless_attack: i32,
    pub endless_upgrade: i32,
    pub gold: i32,
    pub gold_max: i32,
    pub attack_sound: i32,
    pub show_sound: i32,
}

impl View for Enemy {
    type V = EnemyV;

    open spec fn view(&self) -> EnemyV {
        EnemyV {
            id: self.id,
            icon: self.icon@,
            name_id: self.name_id,
            desc_id: self.desc_id,
            map: self.map,
            level: self.level,
            boss: self.boss,
            hp: self.hp,
            attack: self.attack,
            upgrade_attack: self.upgrade_attack,
            endless_hp: self.endless_hp,
            endless_attack: self.endless_attack,
            endless_upgrade: self.endless_upgrade,
            gold: self.gold,
            gold_max: self.gold_max,
            attack_sound: self.attack_sound,
            show_sound: self.show_sound,
        }
    }
}

impl DeepView for Enemy {
    type V = EnemyV;

    open spec fn deep_view(&self) -> EnemyV {
        self.view()
    }
}

impl Default for Enemy {
    fn default() -> (r: Self)
        ensures
            r@ == (EnemyV {
                id: 0,
                icon: Seq::<char>::empty(),
                name_id: 0,
                desc_id: 0,
                map: 0,
                level: 0,
                boss: 0,
                hp: 0,
                attack: 0,
                upgrade_attack: 0,
                endless_hp: 0,
                endless_attack: 0,
                endless_upgrade: 0,
                gold: 0,
                gold_max: 0,
                attack_sound: 0,
                show_sound: 0,
            }),
    {
        Enemy {
            id: 0,
            icon: String::new(),
            name_id: 0,
            desc_id: 0,
            map: 0,
            level: 0,
            boss: 0,
            hp: 0,
            attack: 0,
            upgrade_attack: 0,
            endless_hp: 0,
            endless_attack: 0,
            endless_upgrade: 0,
            gold: 0,
            gold_max: 0,
            attack_sound: 0,
            show_sound: 0,
        }
    }
}

/// One row of the relic table.
#[derive(Debug, Clone, PartialEq, Eq)]
pub struct Relics {
    pub id: i32,
    pub enable: i32,
    pub lock: i32,
    pub role: i32,
    pub tutorial: i32,
    pub icon: String,
    pub small_icon: String,
    pub name_id: i32,
    pub desc_id: i32,
    pub other_desc_id: i32,
    pub desc_tip: Vec<Etip>,
    pub rare: i32,
    pub passive: Vec<i32>,
    pub trigger_type: i32,
    pub trigger_param: Vec<i32>,
    pub event_tip: i32,
    pub trigger_action: i32,
    pub trigger_value: Vec<i32>,
    pub other_value: Vec<i32>,
}

/// Mathematical value of a [`Relics`].
pub ghost struct RelicsV {
    pub id: i32,
    pub enable: i32,
    pub lock: i32,
    pub role: i32,
    pub tutorial: i32,
    pub icon: Seq<char>,
    pub small_icon: Seq<char>,
    pub name_id: i32,
    pub desc_id: i32,
    pub other_desc_id: i32,
    pub desc_tip: Seq<Etip>,
    pub rare: i32,
    pub passive: Seq<i32>,
    pub trigger_type: i32,
    pub trigger_param: Seq<i32>,
    pub event_tip: i32,
    pub trigger_action: i32,
    pub trigger_value: Seq<i32>,
    pub other_value: Seq<i32>,
}

impl View for Relics {
    type V = RelicsV;

    open spec fn view(&self) -> RelicsV {
        RelicsV {
            id: self.id,
            enable: self.enable,
            lock: self.lock,
            role: self.role,
            tutorial: self.tutorial,
            icon: self.icon@,
            small_icon: self.small_icon@,
            name_id: self.name_id,
            desc_id: self.desc_id,
            other_desc_id: self.other_desc_id,
            desc_tip: self.desc_tip@,
            rare: self.rare,
            passive: self.passive@,
            trigger_type: self.trigger_type,
            trigger_param: self.trigger_param@,
            event_tip: self.event_tip,
            trigger_action: self.trigger_action,
            trigger_value: self.trigger_value@,
            other_value: self.other_value@,
        }
    }
}

impl DeepView for Relics {
    type V = RelicsV;

    open spec fn deep_view(&self) -> RelicsV {
        self.view()
    }
}

impl Default for Relics {
    fn default() -> (r: Self)
        ensures
            r@ == (RelicsV {
                id: 0,
                enable: 0,
                lock: 0,
                role: 0,
                tutorial: 0,
                icon: Seq::<char>::empty(),
                small_icon: Seq::<char>::empty(),
                name_id: 0,
                desc_id: 0,
                other_desc_id: 0,
                desc_tip: Seq::<Etip>::empty(),
                rare: 0,
                passive: Seq::<i32>::empty(),
                trigger_type: 0,
                trigger_param: Seq::<i32>::empty(),
                event_tip: 0,
                trigger_action: 0,
                trigger_value: Seq::<i32>::empty(),
                other_value: Seq::<i32>::empty(),
            }),
    {
        Relics {
            id: 0,
            enable: 0,
            lock: 0,
            role: 0,
            tutorial: 0,
            icon: String::new(),
            small_icon: String::new(),
            name_id: 0,
            desc_id: 0,
            other_desc_id: 0,
            desc_tip: Vec::new(),
            rare: 0,
            passive: Vec::new(),
            trigger_type: 0,
            trigger_param: Vec::new(),
            event_tip: 0,
            trigger_action: 0,
            trigger_value: Vec::new(),
            other_value: Vec::new(),
        }
    }
}

/// One row of the playable-unit table, the most nested record kind.
#[derive(Debug, Clone)]
pub struct Element {
    pub id: i32,
    pub lock: i32,
    pub enable: i32,
    pub role: i32,
    pub name_id: i32,
    pub desc_id: i32,
    pub desctip: Vec<Etip>,
    pub desc_attribute: Vec<i32>,
    pub icon: String,
    pub rare: i32,
    pub race_type: ERaceType,
    pub other_race: ERaceType,
    pub attribute: Vec<ElementAttribute>,
    pub trigger_type: i32,
    pub trigger_param: Vec<i32>,
    pub event_tip: i32,
    pub trigger_action: i32,
    pub trigger_value: Vec<ElementTriggerValue>,
    pub other_value: Vec<i32>,
    pub attack_sound: i32,
    pub select_sound: i32,
    pub attack_particle: i32,
}

/// Mathematical value of an [`Element`].
pub ghost struct ElementV {
    pub id: i32,
    pub lock: i32,
    pub enable: i32,
    pub role: i32,
    pub name_id: i32,
    pub desc_id: i32,
    pub desctip: Seq<Etip>,
    pub desc_attribute: Seq<i32>,
    pub icon: Seq<char>,
    pub rare: i32,
    pub race_type: ERaceType,
    pub other_race: ERaceType,
    pub attribute: Seq<ElementAttribute>,
    pub trigger_type: i32,
    pub trigger_param: Seq<i32>,
    pub event_tip: i32,
    pub trigger_action: i32,
    pub trigger_value: Seq<TriggerValueV>,
    pub other_value: Seq<i32>,
    pub attack_sound: i32,
    pub select_sound: i32,
    pub attack_particle: i32,
}

impl View for Element {
    type V = ElementV;

    open spec fn view(&self) -> ElementV {
        ElementV {
            id: self.id,
            lock: self.lock,
            enable: self.enable,
            role: self.role,
            name_id: self.name_id,
            desc_id: self.desc_id,
            desctip: self.desctip@,
            desc_attribute: self.desc_attribute@,
            icon: self.icon@,
            rare: self.rare,
            race_type: self.race_type,
            other_race: self.other_race,
            attribute: self.attribute@,
            trigger_type: self.trigger_type,
            trigger_param: self.trigger_param@,
            event_tip: self.event_tip,
            trigger_action: self.trigger_action,
            trigger_value: self.trigger_value.deep_view(),
            other_value: self.other_value@,
            attack_sound: self.attack_sound,
            select_sound: self.select_sound,
            attack_particle: self.attack_particle,
        }
    }
}

impl DeepView for Element {
    type V = ElementV;

    open spec fn deep_view(&self) -> ElementV {
        self.view()
    }
}

impl Default for Element {
    fn default() -> (r: Self)
        ensures
            r@ == (ElementV {
                id: 0,
                lock: 0,
                enable: 0,
                role: 0,
                name_id: 0,
                desc_id: 0,
                desctip: Seq::<Etip>::empty(),
                desc_attribute: Seq::<i32>::empty(),
                icon: Seq::<char>::empty(),
                rare: 0,
                race_type: ERaceType::NoneRace,
                other_race: ERaceType::NoneRace,
                attribute: Seq::<ElementAttribute>::empty(),
                trigger_type: 0,
                trigger_param: Seq::<i32>::empty(),
                event_tip: 0,
                trigger_action: 0,
                trigger_value: Seq::<TriggerValueV>::empty(),
                other_value: Seq::<i32>::empty(),
                attack_sound: 0,
                select_sound: 0,
                attack_particle: 0,
            }),
    {
        let r = Element {
            id: 0,
            lock: 0,
            enable: 0,
            role: 0,
            name_id: 0,
            desc_id: 0,
            desctip: Vec::new(),
            desc_attribute: Vec::new(),
            icon: String::new(),
            rare: 0,
            race_type: ERaceType::NoneRace,
            other_race: ERaceType::NoneRace,
            attribute: Vec::new(),
            trigger_type: 0,
            trigger_param: Vec::new(),
            event_tip: 0,
            trigger_action: 0,
            trigger_value: Vec::new(),
            other_value: Vec::new(),
            attack_sound: 0,
            select_sound: 0,
            attack_particle: 0,
        };
        proof {
            assert(r.trigger_value.deep_view() =~= Seq::<TriggerValueV>::empty());
        }
        r
    }
}

/// Equality of units goes by the identifier alone: a record may stand in for
/// another record with the same id even when their content differs.
impl PartialEq for Element {
    fn eq(&self, other: &Self) -> (r: bool) {
        self.id == other.id
    }
}

impl vstd::std_specs::cmp::PartialEqSpecImpl for Element {
    open spec fn obeys_eq_spec() -> bool {
        true
    }

    open spec fn eq_spec(&self, other: &Element) -> bool {
        self.id == other.id
    }
}

impl Eq for Element {}

/// Ordering of relic rows goes by the identifier alone.
impl PartialOrd for Relics {
    fn partial_cmp(&self, other: &Self) -> (r: Option<Ordering>) {
        if self.id < other.id {
            Some(Ordering::Less)
        } else if self.id == other.id {
            Some(Ordering::Equal)
        } else {
            Some(Ordering::Greater)
        }
    }
}

impl vstd::std_specs::cmp::PartialOrdSpecImpl for Relics {
    open spec fn obeys_partial_cmp_spec() -> bool {
        true
    }

    open spec fn partial_cmp_spec(&self, other: &Relics) -> Option<Ordering> {
        if self.id < other.id {
            Some(Ordering::Less)
        } else if self.id == other.id {
            Some(Ordering::Equal)
        } else {
            Some(Ordering::Greater)
        }
    }
}

/// Ordering of unit rows goes by the identifier alone.
impl PartialOrd for Element {
    fn partial_cmp(&self, other: &Self) -> (r: Option<Ordering>) {
        if self.id < other.id {
            Some(Ordering::Less)
        } else if self.id == other.id {
            Some(Ordering::Equal)
        } else {
            Some(Ordering::Greater)
        }
    }
}

impl vstd::std_specs::cmp::PartialOrdSpecImpl for Element {
    open spec fn obeys_partial_cmp_spec() -> bool {
        true
    }

    open spec fn partial_cmp_spec(&self, other: &Element) -> Option<Ordering> {
        if self.id < other.id {
            Some(Ordering::Less)
        } else if self.id == other.id {
            Some(Ordering::Equal)
        } else {
            Some(Ordering::Greater)
        }
    }
}

/// Ordering of enemy rows goes by the identifier alone.
impl PartialOrd for Enemy {
    fn partial_cmp(&self, other: &Self) -> (r: Option<Ordering>) {
        if self.id < other.id {
            Some(Ordering::Less)
        } else if self.id == other.id {
            Some(Ordering::Equal)
        } else {
            Some(Ordering::Greater)
        }
    }
}

impl vstd::std_specs::cmp::PartialOrdSpecImpl for Enemy {
    open spec fn obeys_partial_cmp_spec() -> bool {
        true
    }

    open spec fn partial_cmp_spec(&self, other: &Enemy) -> Option<Ordering> {
        if self.id < other.id {
            Some(Ordering::Less)
        } else if self.id == other.id {
            Some(Ordering::Equal)
        } else {
            Some(Ordering::Greater)
        }
    }
}

/// Ordering of localization rows goes by the identifier alone.
impl PartialOrd for Localization {
    fn partial_cmp(&self, other: &Self) -> (r: Option<Ordering>) {
        if self.id < other.id {
            Some(Ordering::Less)
        } else if self.id == other.id {
            Some(Ordering::Equal)
        } else {
            Some(Ordering::Greater)
        }
    }
}

impl vstd::std_specs::cmp::PartialOrdSpecImpl for Localization {
    open spec fn obeys_partial_cmp_spec() -> bool {
        true
    }

    open spec fn partial_cmp_spec(&self, other: &Localization) -> Option<Ordering> {
        if self.id < other.id {
            Some(Ordering::Less)
        } else if self.id == other.id {
            Some(Ordering::Equal)
        } else {
            Some(Ordering::Greater)
        }
    }
}

/// Ordering of race attribute rows goes by the identifier alone.
impl PartialOrd for RaceAttribute {
    fn partial_cmp(&self, other: &Self) -> (r: Option<Ordering>) {
        if self.id < other.id {
            Some(Ordering::Less)
        } else if self.id == other.id {
            Some(Ordering::Equal)
        } else {
            Some(Ordering::Greater)
        }
    }
}

impl vstd::std_specs::cmp::PartialOrdSpecImpl for RaceAttribute {
    open spec fn obeys_partial_cmp_spec() -> bool {
        true
    }

    open spec fn partial_cmp_spec(&self, other: &RaceAttribute) -> Option<Ordering> {
        if self.id < other.id {
            Some(Ordering::Less)
        } else if self.id == other.id {
            Some(Ordering::Equal)
        } else {
            Some(Ordering::Greater)
        }
    }
}


/// Identifier-based equality: two unit records with the same identifier are
/// equal under the table's comparator and its ordering, whatever their other
/// fields hold.
pub proof fn lemma_element_id_equality(a: Element, b: Element)
    requires
        a.id == b.id,
    ensures
        vstd::std_specs::cmp::PartialEqSpec::eq_spec(&a, &b),
        vstd::std_specs::cmp::PartialOrdSpec::partial_cmp_spec(&a, &b) == Some(Ordering::Equal),
{
}

} // verus!
