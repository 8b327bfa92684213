//! Classification of DLsite works: work types, categories, age ratings and
//! file types.

use vstd::prelude::*;
use crate::path::PathSegment;
use crate::text::{owned, str_eq};

verus! {

/// Work type category (group) for broad classification.
#[derive(Debug, Clone, PartialEq)]
pub enum WorkTypeCategory {
    /// Games.
    Game,
    /// Manga/comics.
    Comic,
    /// CG and illustrations.
    Illust,
    /// Novels.
    Novel,
    /// Video/animation works.
    Movie,
    /// Voice and ASMR content.
    Audio,
    /// Music.
    Music,
    /// Tools and accessories.
    Tool,
    /// Other/miscellaneous.
    Etc,
    /// A name not in the list above, kept as it was read.
    Unknown(String),
}

impl WorkTypeCategory {
    /// The name under which the value is written.
    pub open spec fn name(&self) -> Seq<char> {
        match self {
            WorkTypeCategory::Game => "game"@,
            WorkTypeCategory::Comic => "comic"@,
            WorkTypeCategory::Illust => "illust"@,
            WorkTypeCategory::Novel => "novel"@,
            WorkTypeCategory::Movie => "movie"@,
            WorkTypeCategory::Audio => "audio"@,
            WorkTypeCategory::Music => "music"@,
            WorkTypeCategory::Tool => "tool"@,
            WorkTypeCategory::Etc => "etc"@,
            WorkTypeCategory::Unknown(s) => s@,
        }
    }

    /// Writes the name of the value.
    pub fn to_string(&self) -> (s: String)
        ensures
            s@ == self.name(),
    {
        match self {
            WorkTypeCategory::Game => owned("game"),
            WorkTypeCategory::Comic => owned("comic"),
            WorkTypeCategory::Illust => owned("illust"),
            WorkTypeCategory::Novel => owned("novel"),
            WorkTypeCategory::Movie => owned("movie"),
            WorkTypeCategory::Audio => owned("audio"),
            WorkTypeCategory::Music => owned("music"),
            WorkTypeCategory::Tool => owned("tool"),
            WorkTypeCategory::Etc => owned("etc"),
            WorkTypeCategory::Unknown(s) => s.clone(),
        }
    }

    /// Whether `s` is the name of one of the listed values.
    pub open spec fn is_known_name(s: Seq<char>) -> bool {
        s == "game"@
            || s == "comic"@
            || s == "illust"@
            || s == "novel"@
            || s == "movie"@
            || s == "audio"@
            || s == "music"@
            || s == "tool"@
            || s == "etc"@
    }

    /// Reads a value from its name; a name not in the list gives `Unknown`
    /// holding the name. Names are matched exactly, case included.
    pub fn parse(s: &str) -> (r: WorkTypeCategory)
        ensures
            r.name() == s@,
            (r is Unknown) == !Self::is_known_name(s@),
    {
        if str_eq(s, "game") {
            WorkTypeCategory::Game
        } else if str_eq(s, "comic") {
            WorkTypeCategory::Comic
        } else if str_eq(s, "illust") {
            WorkTypeCategory::Illust
        } else if str_eq(s, "novel") {
            WorkTypeCategory::Novel
        } else if str_eq(s, "movie") {
            WorkTypeCategory::Movie
        } else if str_eq(s, "audio") {
            WorkTypeCategory::Audio
        } else if str_eq(s, "music") {
            WorkTypeCategory::Music
        } else if str_eq(s, "tool") {
            WorkTypeCategory::Tool
        } else if str_eq(s, "etc") {
            WorkTypeCategory::Etc
        } else {
            WorkTypeCategory::Unknown(owned(s))
        }
    }
}

impl WorkTypeCategory {
    /// Two listed values with the same name are the same, so the name that
    /// [`WorkTypeCategory::parse`] reads determines the value it gives.
    #[verifier::spinoff_prover]
    pub proof fn lemma_names_distinct(a: WorkTypeCategory, b: WorkTypeCategory)
        requires
            !(a is Unknown),
            !(b is Unknown),
            a.name() == b.name(),
        ensures
            a == b,
    {
        reveal_strlit("game");
        reveal_strlit("comic");
        reveal_strlit("illust");
        reveal_strlit("novel");
        reveal_strlit("movie");
        reveal_strlit("audio");
        reveal_strlit("music");
        reveal_strlit("tool");
        reveal_strlit("etc");
        let n = a.name();
        assert(n.len() == b.name().len());
        assert(n[0] == b.name()[0] && n[1] == b.name()[1] && n[2] == b.name()[2]);
    }
}

impl PathSegment for WorkTypeCategory {
    open spec fn segment(&self) -> Seq<char> {
        self.name()
    }

    fn to_segment(&self) -> (s: String) {
        self.to_string()
    }
}

impl std::str::FromStr for WorkTypeCategory {
    type Err = std::convert::Infallible;

    fn from_str(s: &str) -> (r: Result<Self, Self::Err>)
        ensures
            r matches Ok(v) && v.name() == s@ && (v is Unknown) == !WorkTypeCategory::is_known_name(s@),
    {
        Ok(WorkTypeCategory::parse(s))
    }
}
/// Individual work type for fine-grained classification.
#[derive(Debug, PartialEq, Clone)]
pub enum WorkType {
    /// Action (game).
    ACN,
    /// Quiz (game).
    QIZ,
    /// Adventure (game).
    ADV,
    /// Role-playing (game).
    RPG,
    /// Table (game).
    TBL,
    /// Digital novel (game).
    DNV,
    /// Simulation (game).
    SLN,
    /// Typing (game).
    TYP,
    /// Shooting (game).
    STG,
    /// Puzzle (game).
    PZL,
    /// Miscellaneous games.
    ETC,
    /// Manga.
    MNG,
    /// Gekiga.
    SCM,
    /// Webtoon.
    WBT,
    /// CG and illustrations.
    ICG,
    /// Novel.
    NRE,
    /// Erotic novel.
    KSV,
    /// Video.
    MOV,
    /// Voice / ASMR.
    SOU,
    /// Music.
    MUS,
    /// Tools / accessories.
    TOL,
    /// Illustration materials.
    IMT,
    /// Music materials.
    AMT,
    /// Miscellaneous.
    ET3,
    /// Voiced comics.
    VCM,
    /// A name not in the list above, kept as it was read.
    Unknown(String),
}

impl WorkType {
    /// The name under which the value is written.
    pub open spec fn name(&self) -> Seq<char> {
        match self {
            WorkType::ACN => "ACN"@,
            WorkType::QIZ => "QIZ"@,
            WorkType::ADV => "ADV"@,
            WorkType::RPG => "RPG"@,
            WorkType::TBL => "TBL"@,
            WorkType::DNV => "DNV"@,
            WorkType::SLN => "SLN"@,
            WorkType::TYP => "TYP"@,
            WorkType::STG => "STG"@,
            WorkType::PZL => "PZL"@,
            WorkType::ETC => "ETC"@,
            WorkType::MNG => "MNG"@,
            WorkType::SCM => "SCM"@,
            WorkType::WBT => "WBT"@,
            WorkType::ICG => "ICG"@,
            WorkType::NRE => "NRE"@,
            WorkType::KSV => "KSV"@,
            WorkType::MOV => "MOV"@,
            WorkType::SOU => "SOU"@,
            WorkType::MUS => "MUS"@,
            WorkType::TOL => "TOL"@,
            WorkType::IMT => "IMT"@,
            WorkType::AMT => "AMT"@,
            WorkType::ET3 => "ET3"@,
            WorkType::VCM => "VCM"@,
            WorkType::Unknown(s) => s@,
        }
    }

    /// Writes the name of the value.
    pub fn to_string(&self) -> (s: String)
        ensures
            s@ == self.name(),
    {
        match self {
            WorkType::ACN => owned("ACN"),
            WorkType::QIZ => owned("QIZ"),
            WorkType::ADV => owned("ADV"),
            WorkType::RPG => owned("RPG"),
            WorkType::TBL => owned("TBL"),
            WorkType::DNV => owned("DNV"),
            WorkType::SLN => owned("SLN"),
            WorkType::TYP => owned("TYP"),
            WorkType::STG => owned("STG"),
            WorkType::PZL => owned("PZL"),
            WorkType::ETC => owned("ETC"),
            WorkType::MNG => owned("MNG"),
            WorkType::SCM => owned("SCM"),
            WorkType::WBT => owned("WBT"),
            WorkType::ICG => owned("ICG"),
            WorkType::NRE => owned("NRE"),
            WorkType::KSV => owned("KSV"),
            WorkType::MOV => owned("MOV"),
            WorkType::SOU => owned("SOU"),
            WorkType::MUS => owned("MUS"),
            WorkType::TOL => owned("TOL"),
            WorkType::IMT => owned("IMT"),
            WorkType::AMT => owned("AMT"),
            WorkType::ET3 => owned("ET3"),
            WorkType::VCM => owned("VCM"),
            WorkType::Unknown(s) => s.clone(),
        }
    }

    /// Whether `s` is the name of one of the listed values.
    pub open spec fn is_known_name(s: Seq<char>) -> bool {
        s == "ACN"@
            || s == "QIZ"@
            || s == "ADV"@
            || s == "RPG"@
            || s == "TBL"@
            || s == "DNV"@
            || s == "SLN"@
            || s == "TYP"@
            || s == "STG"@
            || s == "PZL"@
            || s == "ETC"@
            || s == "MNG"@
            || s == "SCM"@
            || s == "WBT"@
            || s == "ICG"@
            || s == "NRE"@
            || s == "KSV"@
            || s == "MOV"@
            || s == "SOU"@
            || s == "MUS"@
            || s == "TOL"@
            || s == "IMT"@
            || s == "AMT"@
            || s == "ET3"@
            || s == "VCM"@
    }

    /// Reads a value from its name; a name not in the list gives `Unknown`
    /// holding the name. Names are matched exactly, case included.
    pub fn parse(s: &str) -> (r: WorkType)
        ensures
            r.name() == s@,
            (r is Unknown) == !Self::is_known_name(s@),
    {
        if str_eq(s, "ACN") {
            WorkType::ACN
        } else if str_eq(s, "QIZ") {
            WorkType::QIZ
        } else if str_eq(s, "ADV") {
            WorkType::ADV
        } else if str_eq(s, "RPG") {
            WorkType::RPG
        } else if str_eq(s, "TBL") {
            WorkType::TBL
        } else if str_eq(s, "DNV") {
            WorkType::DNV
        } else if str_eq(s, "SLN") {
            WorkType::SLN
        } else if str_eq(s, "TYP") {
            WorkType::TYP
        } else if str_eq(s, "STG") {
            WorkType::STG
        } else if str_eq(s, "PZL") {
            WorkType::PZL
        } else if str_eq(s, "ETC") {
            WorkType::ETC
        } else if str_eq(s, "MNG") {
            WorkType::MNG
        } else if str_eq(s, "SCM") {
            WorkType::SCM
        } else if str_eq(s, "WBT") {
            WorkType::WBT
        } else if str_eq(s, "ICG") {
            WorkType::ICG
        } else if str_eq(s, "NRE") {
            WorkType::NRE
        } else if str_eq(s, "KSV") {
            WorkType::KSV
        } else if str_eq(s, "MOV") {
            WorkType::MOV
        } else if str_eq(s, "SOU") {
            WorkType::SOU
        } else if str_eq(s, "MUS") {
            WorkType::MUS
        } else if str_eq(s, "TOL") {
            WorkType::TOL
        } else if str_eq(s, "IMT") {
            WorkType::IMT
        } else if str_eq(s, "AMT") {
            WorkType::AMT
        } else if str_eq(s, "ET3") {
            WorkType::ET3
        } else if str_eq(s, "VCM") {
            WorkType::VCM
        } else {
            WorkType::Unknown(owned(s))
        }
    }
}

impl WorkType {
    /// Two listed work types with the same name are the same, so the name
    /// that [`WorkType::parse`] reads determines the value it gives.
    #[verifier::spinoff_prover]
    pub proof fn lemma_names_distinct(a: WorkType, b: WorkType)
        requires
            !(a is Unknown),
            !(b is Unknown),
            a.name() == b.name(),
        ensures
            a == b,
    {
        reveal_strlit("ACN");
        reveal_strlit("QIZ");
        reveal_strlit("ADV");
        reveal_strlit("RPG");
        reveal_strlit("TBL");
        reveal_strlit("DNV");
        reveal_strlit("SLN");
        reveal_strlit("TYP");
        reveal_strlit("STG");
        reveal_strlit("PZL");
        reveal_strlit("ETC");
        reveal_strlit("MNG");
        reveal_strlit("SCM");
        reveal_strlit("WBT");
        reveal_strlit("ICG");
        reveal_strlit("NRE");
        reveal_strlit("KSV");
        reveal_strlit("MOV");
        reveal_strlit("SOU");
        reveal_strlit("MUS");
        reveal_strlit("TOL");
        reveal_strlit("IMT");
        reveal_strlit("AMT");
        reveal_strlit("ET3");
        reveal_strlit("VCM");
        let n = a.name();
        assert(n.len() == 3);
        assert(n[0] == b.name()[0] && n[1] == b.name()[1] && n[2] == b.name()[2]);
    }
}

impl WorkType {
    /// The game work types are exactly action, quiz, adventure, role-playing,
    /// table, digital novel, simulation, typing, shooting, puzzle and other
    /// games; manga, CG, novels, video, voice, music, tools, materials,
    /// voiced comics and unlisted types are not games.
    pub proof fn lemma_game_types(w: WorkType)
        ensures
            w.spec_is_game() <==> (w == WorkType::ACN || w == WorkType::QIZ || w == WorkType::ADV || w == WorkType::RPG || w == WorkType::TBL || w == WorkType::DNV || w == WorkType::SLN || w == WorkType::TYP || w == WorkType::STG || w == WorkType::PZL || w == WorkType::ETC),
        !WorkType::MNG.spec_is_game(),
        !WorkType::SCM.spec_is_game(),
        !WorkType::WBT.spec_is_game(),
        !WorkType::ICG.spec_is_game(),
        !WorkType::NRE.spec_is_game(),
        !WorkType::KSV.spec_is_game(),
        !WorkType::MOV.spec_is_game(),
        !WorkType::SOU.spec_is_game(),
        !WorkType::MUS.spec_is_game(),
        !WorkType::TOL.spec_is_game(),
        !WorkType::IMT.spec_is_game(),
        !WorkType::AMT.spec_is_game(),
        !WorkType::ET3.spec_is_game(),
        !WorkType::VCM.spec_is_game(),
            forall|s: String| !#[trigger] WorkType::Unknown(s).spec_is_game(),
    {
    }
}

impl PathSegment for WorkType {
    open spec fn segment(&self) -> Seq<char> {
        self.name()
    }

    fn to_segment(&self) -> (s: String) {
        self.to_string()
    }
}

impl std::str::FromStr for WorkType {
    type Err = std::convert::Infallible;

    fn from_str(s: &str) -> (r: Result<Self, Self::Err>)
        ensures
            r matches Ok(v) && v.name() == s@ && (v is Unknown) == !WorkType::is_known_name(s@),
    {
        Ok(WorkType::parse(s))
    }
}
impl WorkType {
    /// Whether the work type is one not in the list.
    pub fn is_unknown(&self) -> (r: bool)
        ensures
            r == (*self is Unknown),
    {
        match self {
            WorkType::Unknown(_) => true,
            _ => false,
        }
    }

    /// Whether the work type is one of the game types.
    pub open spec fn spec_is_game(&self) -> bool {
        self is ACN
            || self is QIZ
            || self is ADV
            || self is RPG
            || self is TBL
            || self is DNV
            || self is SLN
            || self is TYP
            || self is STG
            || self is PZL
            || self is ETC
    }

    /// Check if this work type is a game: Action, Quiz, Adventure, RPG, Table,
    /// Digital Novel, Simulation, Typing, Shooting, Puzzle or Other Games.
    pub fn is_game(&self) -> (r: bool)
        ensures
            r == self.spec_is_game(),
    {
        match self {
            WorkType::ACN
            | WorkType::QIZ
            | WorkType::ADV
            | WorkType::RPG
            | WorkType::TBL
            | WorkType::DNV
            | WorkType::SLN
            | WorkType::TYP
            | WorkType::STG
            | WorkType::PZL
            | WorkType::ETC => true,
            _ => false,
        }
    }
}

/// Age rating of a DLsite work.
#[derive(Debug, Clone, PartialEq, Eq, Structural)]
pub enum AgeCategory {
    /// All ages.
    General,
    /// R-15 rated content.
    R15,
    /// Adult only (18+).
    Adult,
}

impl AgeCategory {
    /// The name under which the value is written.
    pub open spec fn name(&self) -> Seq<char> {
        match self {
            AgeCategory::General => "general"@,
            AgeCategory::R15 => "r15"@,
            AgeCategory::Adult => "adult"@,
        }
    }

    /// Writes the name of the value.
    pub fn to_string(&self) -> (s: String)
        ensures
            s@ == self.name(),
    {
        match self {
            AgeCategory::General => owned("general"),
            AgeCategory::R15 => owned("r15"),
            AgeCategory::Adult => owned("adult"),
        }
    }
}

impl AgeCategory {
    /// The three age ratings are written under different names.
    #[verifier::spinoff_prover]
    pub proof fn lemma_names_distinct(a: AgeCategory, b: AgeCategory)
        requires
            a.name() == b.name(),
        ensures
            a == b,
    {
        reveal_strlit("general");
        reveal_strlit("r15");
        reveal_strlit("adult");
        let n = a.name();
        assert(n.len() == b.name().len());
        assert(n[0] == b.name()[0]);
    }
}

impl PathSegment for AgeCategory {
    open spec fn segment(&self) -> Seq<char> {
        self.name()
    }

    fn to_segment(&self) -> (s: String) {
        self.to_string()
    }
}
/// Work category (parent category) for market segmentation.
#[derive(PartialEq, Debug, Clone)]
pub enum WorkCategory {
    /// Doujin/fan works.
    Doujin,
    /// Commercial books/manga.
    Books,
    /// PC software.
    Pc,
    /// Mobile/smartphone games.
    App,
    /// A name not in the list above, kept as it was read.
    Unknown(String),
}

impl WorkCategory {
    /// The name under which the value is written.
    pub open spec fn name(&self) -> Seq<char> {
        match self {
            WorkCategory::Doujin => "doujin"@,
            WorkCategory::Books => "books"@,
            WorkCategory::Pc => "pc"@,
            WorkCategory::App => "app"@,
            WorkCategory::Unknown(s) => s@,
        }
    }

    /// Writes the name of the value.
    pub fn to_string(&self) -> (s: String)
        ensures
            s@ == self.name(),
    {
        match self {
            WorkCategory::Doujin => owned("doujin"),
            WorkCategory::Books => owned("books"),
            WorkCategory::Pc => owned("pc"),
            WorkCategory::App => owned("app"),
            WorkCategory::Unknown(s) => s.clone(),
        }
    }

    /// Whether `s` is the name of one of the listed values.
    pub open spec fn is_known_name(s: Seq<char>) -> bool {
        s == "doujin"@
            || s == "books"@
            || s == "pc"@
            || s == "app"@
    }

    /// Reads a value from its name; a name not in the list gives `Unknown`
    /// holding the name. Names are matched exactly, case included.
    pub fn parse(s: &str) -> (r: WorkCategory)
        ensures
            r.name() == s@,
            (r is Unknown) == !Self::is_known_name(s@),
    {
        if str_eq(s, "doujin") {
            WorkCategory::Doujin
        } else if str_eq(s, "books") {
            WorkCategory::Books
        } else if str_eq(s, "pc") {
            WorkCategory::Pc
        } else if str_eq(s, "app") {
            WorkCategory::App
        } else {
            WorkCategory::Unknown(owned(s))
        }
    }
}

impl WorkCategory {
    /// Two listed values with the same name are the same, so the name that
    /// [`WorkCategory::parse`] reads determines the value it gives.
    #[verifier::spinoff_prover]
    pub proof fn lemma_names_distinct(a: WorkCategory, b: WorkCategory)
        requires
            !(a is Unknown),
            !(b is Unknown),
            a.name() == b.name(),
        ensures
            a == b,
    {
        reveal_strlit("doujin");
        reveal_strlit("books");
        reveal_strlit("pc");
        reveal_strlit("app");
        let n = a.name();
        assert(n.len() == b.name().len());
        assert(n[0] == b.name()[0] && n[1] == b.name()[1]);
    }
}

impl PathSegment for WorkCategory {
    open spec fn segment(&self) -> Seq<char> {
        self.name()
    }

    fn to_segment(&self) -> (s: String) {
        self.to_string()
    }
}

impl std::str::FromStr for WorkCategory {
    type Err = std::convert::Infallible;

    fn from_str(s: &str) -> (r: Result<Self, Self::Err>)
        ensures
            r matches Ok(v) && v.name() == s@ && (v is Unknown) == !WorkCategory::is_known_name(s@),
    {
        Ok(WorkCategory::parse(s))
    }
}
/// File type of downloadable content.
#[derive(PartialEq, Debug, Clone)]
pub enum FileType {
    /// `EXE` files.
    EXE,
    /// `HTI` files.
    HTI,
    /// `HTE` files.
    HTE,
    /// `HMO` files.
    HMO,
    /// `IJP` files.
    IJP,
    /// `IGF` files.
    IGF,
    /// `IME` files.
    IME,
    /// `IBP` files.
    IBP,
    /// `PNG` files.
    PNG,
    /// `AVI` files.
    AVI,
    /// `MVF` files.
    MVF,
    /// `MPG` files.
    MPG,
    /// `MWM` files.
    MWM,
    /// `MP4` files.
    MP4,
    /// `AAC` files.
    AAC,
    /// `WAV` files.
    WAV,
    /// `MP3` files.
    MP3,
    /// `ADO` files.
    ADO,
    /// `WMA` files.
    WMA,
    /// `FLC` files.
    FLC,
    /// `OGG` files.
    OGG,
    /// `PDF` files.
    PDF,
    /// `APK` files.
    APK,
    /// `ET1` files.
    ET1,
    /// A name not in the list above, kept as it was read.
    Unknown(String),
}

impl FileType {
    /// The name under which the value is written.
    pub open spec fn name(&self) -> Seq<char> {
        match self {
            FileType::EXE => "EXE"@,
            FileType::HTI => "HTI"@,
            FileType::HTE => "HTE"@,
            FileType::HMO => "HMO"@,
            FileType::IJP => "IJP"@,
            FileType::IGF => "IGF"@,
            FileType::IME => "IME"@,
            FileType::IBP => "IBP"@,
            FileType::PNG => "PNG"@,
            FileType::AVI => "AVI"@,
            FileType::MVF => "MVF"@,
            FileType::MPG => "MPG"@,
            FileType::MWM => "MWM"@,
            FileType::MP4 => "MP4"@,
            FileType::AAC => "AAC"@,
            FileType::WAV => "WAV"@,
            FileType::MP3 => "MP3"@,
            FileType::ADO => "ADO"@,
            FileType::WMA => "WMA"@,
            FileType::FLC => "FLC"@,
            FileType::OGG => "OGG"@,
            FileType::PDF => "PDF"@,
            FileType::APK => "APK"@,
            FileType::ET1 => "ET1"@,
            FileType::Unknown(s) => s@,
        }
    }

    /// Writes the name of the value.
    pub fn to_string(&self) -> (s: String)
        ensures
            s@ == self.name(),
    {
        match self {
            FileType::EXE => owned("EXE"),
            FileType::HTI => owned("HTI"),
            FileType::HTE => owned("HTE"),
            FileType::HMO => owned("HMO"),
            FileType::IJP => owned("IJP"),
            FileType::IGF => owned("IGF"),
            FileType::IME => owned("IME"),
            FileType::IBP => owned("IBP"),
            FileType::PNG => owned("PNG"),
            FileType::AVI => owned("AVI"),
            FileType::MVF => owned("MVF"),
            FileType::MPG => owned("MPG"),
            FileType::MWM => owned("MWM"),
            FileType::MP4 => owned("MP4"),
            FileType::AAC => owned("AAC"),
            FileType::WAV => owned("WAV"),
            FileType::MP3 => owned("MP3"),
            FileType::ADO => owned("ADO"),
            FileType::WMA => owned("WMA"),
            FileType::FLC => owned("FLC"),
            FileType::OGG => owned("OGG"),
            FileType::PDF => owned("PDF"),
            FileType::APK => owned("APK"),
            FileType::ET1 => owned("ET1"),
            FileType::Unknown(s) => s.clone(),
        }
    }

    /// Whether `s` is the name of one of the listed values.
    pub open spec fn is_known_name(s: Seq<char>) -> bool {
        s == "EXE"@
            || s == "HTI"@
            || s == "HTE"@
            || s == "HMO"@
            || s == "IJP"@
            || s == "IGF"@
            || s == "IME"@
            || s == "IBP"@
            || s == "PNG"@
            || s == "AVI"@
            || s == "MVF"@
            || s == "MPG"@
            || s == "MWM"@
            || s == "MP4"@
            || s == "AAC"@
            || s == "WAV"@
            || s == "MP3"@
            || s == "ADO"@
            || s == "WMA"@
            || s == "FLC"@
            || s == "OGG"@
            || s == "PDF"@
            || s == "APK"@
            || s == "ET1"@
    }

    /// Reads a value from its name; a name not in the list gives `Unknown`
    /// holding the name. Names are matched exactly, case included.
    pub fn parse(s: &str) -> (r: FileType)
        ensures
            r.name() == s@,
            (r is Unknown) == !Self::is_known_name(s@),
    {
        if str_eq(s, "EXE") {
            FileType::EXE
        } else if str_eq(s, "HTI") {
            FileType::HTI
        } else if str_eq(s, "HTE") {
            FileType::HTE
        } else if str_eq(s, "HMO") {
            FileType::HMO
        } else if str_eq(s, "IJP") {
            FileType::IJP
        } else if str_eq(s, "IGF") {
            FileType::IGF
        } else if str_eq(s, "IME") {
            FileType::IME
        } else if str_eq(s, "IBP") {
            FileType::IBP
        } else if str_eq(s, "PNG") {
            FileType::PNG
        } else if str_eq(s, "AVI") {
            FileType::AVI
        } else if str_eq(s, "MVF") {
            FileType::MVF
        } else if str_eq(s, "MPG") {
            FileType::MPG
        } else if str_eq(s, "MWM") {
            FileType::MWM
        } else if str_eq(s, "MP4") {
            FileType::MP4
        } else if str_eq(s, "AAC") {
            FileType::AAC
        } else if str_eq(s, "WAV") {
            FileType::WAV
        } else if str_eq(s, "MP3") {
            FileType::MP3
        } else if str_eq(s, "ADO") {
            FileType::ADO
        } else if str_eq(s, "WMA") {
            FileType::WMA
        } else if str_eq(s, "FLC") {
            FileType::FLC
        } else if str_eq(s, "OGG") {
            FileType::OGG
        } else if str_eq(s, "PDF") {
            FileType::PDF
        } else if str_eq(s, "APK") {
            FileType::APK
        } else if str_eq(s, "ET1") {
            FileType::ET1
        } else {
            FileType::Unknown(owned(s))
        }
    }
}

impl FileType {
    /// Two listed values with the same name are the same, so the name that
    /// [`FileType::parse`] reads determines the value it gives.
    #[verifier::spinoff_prover]
    pub proof fn lemma_names_distinct(a: FileType, b: FileType)
        requires
            !(a is Unknown),
            !(b is Unknown),
            a.name() == b.name(),
        ensures
            a == b,
    {
        reveal_strlit("EXE");
        reveal_strlit("HTI");
        reveal_strlit("HTE");
        reveal_strlit("HMO");
        reveal_strlit("IJP");
        reveal_strlit("IGF");
        reveal_strlit("IME");
        reveal_strlit("IBP");
        reveal_strlit("PNG");
        reveal_strlit("AVI");
        reveal_strlit("MVF");
        reveal_strlit("MPG");
        reveal_strlit("MWM");
        reveal_strlit("MP4");
        reveal_strlit("AAC");
        reveal_strlit("WAV");
        reveal_strlit("MP3");
        reveal_strlit("ADO");
        reveal_strlit("WMA");
        reveal_strlit("FLC");
        reveal_strlit("OGG");
        reveal_strlit("PDF");
        reveal_strlit("APK");
        reveal_strlit("ET1");
        let n = a.name();
        assert(n.len() == b.name().len());
        assert(n[0] == b.name()[0] && n[1] == b.name()[1] && n[2] == b.name()[2]);
    }
}

impl PathSegment for FileType {
    open spec fn segment(&self) -> Seq<char> {
        self.name()
    }

    fn to_segment(&self) -> (s: String) {
        self.to_string()
    }
}

impl std::str::FromStr for FileType {
    type Err = std::convert::Infallible;

    fn from_str(s: &str) -> (r: Result<Self, Self::Err>)
        ensures
            r matches Ok(v) && v.name() == s@ && (v is Unknown) == !FileType::is_known_name(s@),
    {
        Ok(FileType::parse(s))
    }
}
} // verus!
