//! Query parameter values for DLsite requests: languages, sort orders and
//! search filters.

use vstd::prelude::*;
use crate::path::PathSegment;
use crate::text::owned;

verus! {

/// Languages of DLsite content and API responses; Japanese by default.
#[derive(Clone, Debug, PartialEq, Eq, Structural)]
pub enum Language {
    /// Japanese (ja_JP)
    Jp,
    /// English (en_US)
    En,
    /// Korean (ko_KR)
    Ko,
    /// Simplified Chinese (zh_CN)
    ZhCn,
    /// Traditional Chinese (zh_TW)
    ZhTw,
}

impl Default for Language {
    fn default() -> (r: Self)
        ensures
            r == Language::Jp,
    {
        Language::Jp
    }
}

impl Language {
    /// The name under which the language is written in search paths.
    pub open spec fn name(&self) -> Seq<char> {
        match self {
            Language::Jp => "jp"@,
            Language::En => "en"@,
            Language::Ko => "ko"@,
            Language::ZhCn => "zh_cn"@,
            Language::ZhTw => "zh_tw"@,
        }
    }

    /// Writes the name of the language.
    pub fn to_string(&self) -> (s: String)
        ensures
            s@ == self.name(),
    {
        match self {
            Language::Jp => owned("jp"),
            Language::En => owned("en"),
            Language::Ko => owned("ko"),
            Language::ZhCn => owned("zh_cn"),
            Language::ZhTw => owned("zh_tw"),
        }
    }

    /// The locale the review and product APIs expect for the language.
    pub open spec fn locale(&self) -> Seq<char> {
        match self {
            Language::Jp => "ja_JP"@,
            Language::En => "en_US"@,
            Language::Ko => "ko_KR"@,
            Language::ZhCn => "zh_CN"@,
            Language::ZhTw => "zh_TW"@,
        }
    }

    /// Returns the locale string used by the DLsite review API (e.g. `ja_JP`).
    pub fn to_review_locale(&self) -> (r: &'static str)
        ensures
            r@ == self.locale(),
    {
        match self {
            Language::Jp => "ja_JP",
            Language::En => "en_US",
            Language::Ko => "ko_KR",
            Language::ZhCn => "zh_CN",
            Language::ZhTw => "zh_TW",
        }
    }
}

impl Language {
    /// Different values are written under different names, so a name read
    /// back names one value only.
    #[verifier::spinoff_prover]
    pub proof fn lemma_names_distinct(a: Language, b: Language)
        requires
            a.name() == b.name(),
        ensures
            a == b,
    {
        reveal_strlit("jp");
        reveal_strlit("en");
        reveal_strlit("ko");
        reveal_strlit("zh_cn");
        reveal_strlit("zh_tw");
        let n = a.name();
        assert(n.len() == b.name().len());
        assert((n.len() > 0 ==> n[0] == b.name()[0]) && (n.len() > 1 ==> n[1] == b.name()[1]) && (n.len() > 2 ==> n[2] == b.name()[2]) && (n.len() > 3 ==> n[3] == b.name()[3]) && (n.len() > 4 ==> n[4] == b.name()[4]));
    }
}

impl Language {
    /// Different languages ask for different locales, each the language
    /// code, an underscore and a region code.
    pub proof fn lemma_locales_distinct(a: Language, b: Language)
        ensures
            a.locale().len() == 5 && a.locale()[2] == '_',
            a.locale() == b.locale() ==> a == b,
    {
        reveal_strlit("ja_JP");
        reveal_strlit("en_US");
        reveal_strlit("ko_KR");
        reveal_strlit("zh_CN");
        reveal_strlit("zh_TW");
        let n = a.locale();
        if n == b.locale() {
            assert(n[0] == b.locale()[0] && n[3] == b.locale()[3]);
        }
    }
}

impl PathSegment for Language {
    open spec fn segment(&self) -> Seq<char> {
        self.name()
    }

    fn to_segment(&self) -> (s: String) {
        self.to_string()
    }
}

/// Target audience of a work, for search filtering.
pub enum SexCategory {
    /// Male-targeted content.
    Male,
    /// Female-targeted content.
    Female,
}

impl SexCategory {
    /// The name under which the value is written.
    pub open spec fn name(&self) -> Seq<char> {
        match self {
            SexCategory::Male => "male"@,
            SexCategory::Female => "female"@,
        }
    }

    /// Writes the name of the value.
    pub fn to_string(&self) -> (s: String)
        ensures
            s@ == self.name(),
    {
        match self {
            SexCategory::Male => owned("male"),
            SexCategory::Female => owned("female"),
        }
    }
}

impl SexCategory {
    /// Different values are written under different names, so a name read
    /// back names one value only.
    #[verifier::spinoff_prover]
    pub proof fn lemma_names_distinct(a: SexCategory, b: SexCategory)
        requires
            a.name() == b.name(),
        ensures
            a == b,
    {
        reveal_strlit("male");
        reveal_strlit("female");
        let n = a.name();
        assert(n.len() == b.name().len());
        assert((n.len() > 0 ==> n[0] == b.name()[0]) && (n.len() > 1 ==> n[1] == b.name()[1]) && (n.len() > 2 ==> n[2] == b.name()[2]) && (n.len() > 3 ==> n[3] == b.name()[3]) && (n.len() > 4 ==> n[4] == b.name()[4]) && (n.len() > 5 ==> n[5] == b.name()[5]));
    }
}

impl PathSegment for SexCategory {
    open spec fn segment(&self) -> Seq<char> {
        self.name()
    }

    fn to_segment(&self) -> (s: String) {
        self.to_string()
    }
}
/// Sales status filter for product searches.
pub enum AnaFlg {
    /// Products not on sale.
    Off,
    /// Products currently on sale.
    On,
    /// Reserved/pre-order products.
    Reserve,
    /// All products regardless of sale status.
    All,
}

impl AnaFlg {
    /// The name under which the value is written.
    pub open spec fn name(&self) -> Seq<char> {
        match self {
            AnaFlg::Off => "off"@,
            AnaFlg::On => "on"@,
            AnaFlg::Reserve => "reserve"@,
            AnaFlg::All => "all"@,
        }
    }

    /// Writes the name of the value.
    pub fn to_string(&self) -> (s: String)
        ensures
            s@ == self.name(),
    {
        match self {
            AnaFlg::Off => owned("off"),
            AnaFlg::On => owned("on"),
            AnaFlg::Reserve => owned("reserve"),
            AnaFlg::All => owned("all"),
        }
    }
}

impl AnaFlg {
    /// Different values are written under different names, so a name read
    /// back names one value only.
    #[verifier::spinoff_prover]
    pub proof fn lemma_names_distinct(a: AnaFlg, b: AnaFlg)
        requires
            a.name() == b.name(),
        ensures
            a == b,
    {
        reveal_strlit("off");
        reveal_strlit("on");
        reveal_strlit("reserve");
        reveal_strlit("all");
        let n = a.name();
        assert(n.len() == b.name().len());
        assert((n.len() > 0 ==> n[0] == b.name()[0]) && (n.len() > 1 ==> n[1] == b.name()[1]) && (n.len() > 2 ==> n[2] == b.name()[2]) && (n.len() > 3 ==> n[3] == b.name()[3]) && (n.len() > 4 ==> n[4] == b.name()[4]) && (n.len() > 5 ==> n[5] == b.name()[5]) && (n.len() > 6 ==> n[6] == b.name()[6]));
    }
}

impl PathSegment for AnaFlg {
    open spec fn segment(&self) -> Seq<char> {
        self.name()
    }

    fn to_segment(&self) -> (s: String) {
        self.to_string()
    }
}
/// Sort order for search results.
pub enum Order {
    /// Trending/popular products.
    Trend,
    /// Newest releases first.
    Release,
    /// Oldest releases first.
    ReleaseD,
    /// Most downloads first.
    DlD,
    /// Fewest downloads first.
    Dl,
    /// Lowest price first.
    Price,
    /// Highest price first.
    PriceD,
    /// Highest rated first.
    RateD,
    /// Most reviews first.
    ReviewD,
}

impl Order {
    /// The name under which the value is written.
    pub open spec fn name(&self) -> Seq<char> {
        match self {
            Order::Trend => "trend"@,
            Order::Release => "release"@,
            Order::ReleaseD => "release_d"@,
            Order::DlD => "dl_d"@,
            Order::Dl => "dl"@,
            Order::Price => "price"@,
            Order::PriceD => "price_d"@,
            Order::RateD => "rate_d"@,
            Order::ReviewD => "review_d"@,
        }
    }

    /// Writes the name of the value.
    pub fn to_string(&self) -> (s: String)
        ensures
            s@ == self.name(),
    {
        match self {
            Order::Trend => owned("trend"),
            Order::Release => owned("release"),
            Order::ReleaseD => owned("release_d"),
            Order::DlD => owned("dl_d"),
            Order::Dl => owned("dl"),
            Order::Price => owned("price"),
            Order::PriceD => owned("price_d"),
            Order::RateD => owned("rate_d"),
            Order::ReviewD => owned("review_d"),
        }
    }
}

impl Order {
    /// Different values are written under different names, so a name read
    /// back names one value only.
    #[verifier::spinoff_prover]
    pub proof fn lemma_names_distinct(a: Order, b: Order)
        requires
            a.name() == b.name(),
        ensures
            a == b,
    {
        reveal_strlit("trend");
        reveal_strlit("release");
        reveal_strlit("release_d");
        reveal_strlit("dl_d");
        reveal_strlit("dl");
        reveal_strlit("price");
        reveal_strlit("price_d");
        reveal_strlit("rate_d");
        reveal_strlit("review_d");
        let n = a.name();
        assert(n.len() == b.name().len());
        assert((n.len() > 0 ==> n[0] == b.name()[0]) && (n.len() > 1 ==> n[1] == b.name()[1]) && (n.len() > 2 ==> n[2] == b.name()[2]) && (n.len() > 3 ==> n[3] == b.name()[3]) && (n.len() > 4 ==> n[4] == b.name()[4]) && (n.len() > 5 ==> n[5] == b.name()[5]) && (n.len() > 6 ==> n[6] == b.name()[6]) && (n.len() > 7 ==> n[7] == b.name()[7]) && (n.len() > 8 ==> n[8] == b.name()[8]));
    }
}

impl PathSegment for Order {
    open spec fn segment(&self) -> Seq<char> {
        self.name()
    }

    fn to_segment(&self) -> (s: String) {
        self.to_string()
    }
}
/// Logical operator for combining multiple filter options.
pub enum OptionAndOr {
    /// Match all specified options.
    And,
    /// Match any specified option.
    Or,
}

impl OptionAndOr {
    /// The name under which the value is written.
    pub open spec fn name(&self) -> Seq<char> {
        match self {
            OptionAndOr::And => "and"@,
            OptionAndOr::Or => "or"@,
        }
    }

    /// Writes the name of the value.
    pub fn to_string(&self) -> (s: String)
        ensures
            s@ == self.name(),
    {
        match self {
            OptionAndOr::And => owned("and"),
            OptionAndOr::Or => owned("or"),
        }
    }
}

impl OptionAndOr {
    /// Different values are written under different names, so a name read
    /// back names one value only.
    #[verifier::spinoff_prover]
    pub proof fn lemma_names_distinct(a: OptionAndOr, b: OptionAndOr)
        requires
            a.name() == b.name(),
        ensures
            a == b,
    {
        reveal_strlit("and");
        reveal_strlit("or");
        let n = a.name();
        assert(n.len() == b.name().len());
        assert((n.len() > 0 ==> n[0] == b.name()[0]) && (n.len() > 1 ==> n[1] == b.name()[1]) && (n.len() > 2 ==> n[2] == b.name()[2]));
    }
}

impl PathSegment for OptionAndOr {
    open spec fn segment(&self) -> Seq<char> {
        self.name()
    }

    fn to_segment(&self) -> (s: String) {
        self.to_string()
    }
}
/// Release date range filter for searches.
pub enum ReleaseTerm {
    /// No date filter.
    NoLimit,
    /// Released within the last week.
    Week,
    /// Released within the last month.
    Month,
    /// Released within the last year.
    Year,
    /// Older than one year.
    Old,
}

impl ReleaseTerm {
    /// The name under which the value is written.
    pub open spec fn name(&self) -> Seq<char> {
        match self {
            ReleaseTerm::NoLimit => "None"@,
            ReleaseTerm::Week => "Week"@,
            ReleaseTerm::Month => "Month"@,
            ReleaseTerm::Year => "Year"@,
            ReleaseTerm::Old => "Old"@,
        }
    }

    /// Writes the name of the value.
    pub fn to_string(&self) -> (s: String)
        ensures
            s@ == self.name(),
    {
        match self {
            ReleaseTerm::NoLimit => owned("None"),
            ReleaseTerm::Week => owned("Week"),
            ReleaseTerm::Month => owned("Month"),
            ReleaseTerm::Year => owned("Year"),
            ReleaseTerm::Old => owned("Old"),
        }
    }
}

impl ReleaseTerm {
    /// Different values are written under different names, so a name read
    /// back names one value only.
    #[verifier::spinoff_prover]
    pub proof fn lemma_names_distinct(a: ReleaseTerm, b: ReleaseTerm)
        requires
            a.name() == b.name(),
        ensures
            a == b,
    {
        reveal_strlit("None");
        reveal_strlit("Week");
        reveal_strlit("Month");
        reveal_strlit("Year");
        reveal_strlit("Old");
        let n = a.name();
        assert(n.len() == b.name().len());
        assert((n.len() > 0 ==> n[0] == b.name()[0]) && (n.len() > 1 ==> n[1] == b.name()[1]) && (n.len() > 2 ==> n[2] == b.name()[2]) && (n.len() > 3 ==> n[3] == b.name()[3]) && (n.len() > 4 ==> n[4] == b.name()[4]));
    }
}

impl PathSegment for ReleaseTerm {
    open spec fn segment(&self) -> Seq<char> {
        self.name()
    }

    fn to_segment(&self) -> (s: String) {
        self.to_string()
    }
}
} // verus!
