//! The streaming platforms an anchor can live on.

use vstd::prelude::*;
use crate::text::str_eq;

verus! {

/// A streaming platform. The set is closed: every lookup client belongs to
/// exactly one variant.
#[derive(Debug, Clone, Copy, PartialEq, Eq, Structural, Hash)]
pub enum Platform {
    BiliBili,
    DouYu,
    DouYin,
    HuYa,
    KuaiShou,
    CC,
    HuaJiao,
    Now,
    Afreeca,
}

impl Platform {
    /// The identifier under which the lookup service knows the platform.
    pub open spec fn seam_arg(self) -> Seq<char> {
        match self {
            Platform::BiliBili => "bili"@,
            Platform::DouYu => "douyu"@,
            Platform::DouYin => "douyin"@,
            Platform::HuYa => "huya"@,
            Platform::KuaiShou => "kuaishou"@,
            Platform::CC => "cc"@,
            Platform::HuaJiao => "huajiao"@,
            Platform::Now => "now"@,
            Platform::Afreeca => "afreeca"@,
        }
    }

    /// The label shown to the user.
    pub open spec fn ui_text(self) -> Seq<char> {
        match self {
            Platform::BiliBili => "B站"@,
            Platform::DouYu => "斗鱼"@,
            Platform::DouYin => "抖音"@,
            Platform::HuYa => "虎牙"@,
            Platform::KuaiShou => "快手"@,
            Platform::CC => "CC"@,
            Platform::HuaJiao => "花椒"@,
            Platform::Now => "Now"@,
            Platform::Afreeca => "Afreeca"@,
        }
    }

    /// The variant's own name, as the selection list spells it.
    pub open spec fn variant_name(self) -> Seq<char> {
        match self {
            Platform::BiliBili => "BiliBili"@,
            Platform::DouYu => "DouYu"@,
            Platform::DouYin => "DouYin"@,
            Platform::HuYa => "HuYa"@,
            Platform::KuaiShou => "KuaiShou"@,
            Platform::CC => "CC"@,
            Platform::HuaJiao => "HuaJiao"@,
            Platform::Now => "Now"@,
            Platform::Afreeca => "Afreeca"@,
        }
    }

    /// The platform a selection-list entry stands for; an unknown entry
    /// stands for `BiliBili`.
    pub open spec fn from_name(name: Seq<char>) -> Platform {
        if name == "DouYu"@ {
            Platform::DouYu
        } else if name == "DouYin"@ {
            Platform::DouYin
        } else if name == "HuYa"@ {
            Platform::HuYa
        } else if name == "KuaiShou"@ {
            Platform::KuaiShou
        } else if name == "CC"@ {
            Platform::CC
        } else if name == "HuaJiao"@ {
            Platform::HuaJiao
        } else if name == "Now"@ {
            Platform::Now
        } else if name == "Afreeca"@ {
            Platform::Afreeca
        } else {
            Platform::BiliBili
        }
    }

    /// The platform a follow command names. Four platforms can be followed,
    /// each under one name; every other name is refused.
    pub open spec fn parse_follow(arg: Seq<char>) -> Option<Platform> {
        if arg == "bilibili"@ {
            Some(Platform::BiliBili)
        } else if arg == "douyu"@ {
            Some(Platform::DouYu)
        } else if arg == "douyin"@ {
            Some(Platform::DouYin)
        } else if arg == "huya"@ {
            Some(Platform::HuYa)
        } else {
            None
        }
    }

    /// The platform a saved record names, if it names one: the lookup
    /// identifier of a variant, or `bilibili`.
    pub open spec fn parse_arg(arg: Seq<char>) -> Option<Platform> {
        if arg == "bilibili"@ || arg == "bili"@ {
            Some(Platform::BiliBili)
        } else if arg == "douyu"@ {
            Some(Platform::DouYu)
        } else if arg == "douyin"@ {
            Some(Platform::DouYin)
        } else if arg == "huya"@ {
            Some(Platform::HuYa)
        } else if arg == "kuaishou"@ {
            Some(Platform::KuaiShou)
        } else if arg == "cc"@ {
            Some(Platform::CC)
        } else if arg == "huajiao"@ {
            Some(Platform::HuaJiao)
        } else if arg == "now"@ {
            Some(Platform::Now)
        } else if arg == "afreeca"@ {
            Some(Platform::Afreeca)
        } else {
            None
        }
    }

    pub fn as_seam_arg(&self) -> (r: &'static str)
        ensures
            r@ == self.seam_arg(),
    {
        match self {
            Platform::BiliBili => "bili",
            Platform::DouYu => "douyu",
            Platform::DouYin => "douyin",
            Platform::HuYa => "huya",
            Platform::KuaiShou => "kuaishou",
            Platform::CC => "cc",
            Platform::HuaJiao => "huajiao",
            Platform::Now => "now",
            Platform::Afreeca => "afreeca",
        }
    }

    pub fn as_ui_text(&self) -> (r: &'static str)
        ensures
            r@ == self.ui_text(),
    {
        match self {
            Platform::BiliBili => "B站",
            Platform::DouYu => "斗鱼",
            Platform::DouYin => "抖音",
            Platform::HuYa => "虎牙",
            Platform::KuaiShou => "快手",
            Platform::CC => "CC",
            Platform::HuaJiao => "花椒",
            Platform::Now => "Now",
            Platform::Afreeca => "Afreeca",
        }
    }

    /// The variant's name, for the selection list.
    pub fn name(&self) -> (r: &'static str)
        ensures
            r@ == self.variant_name(),
    {
        match self {
            Platform::BiliBili => "BiliBili",
            Platform::DouYu => "DouYu",
            Platform::DouYin => "DouYin",
            Platform::HuYa => "HuYa",
            Platform::KuaiShou => "KuaiShou",
            Platform::CC => "CC",
            Platform::HuaJiao => "HuaJiao",
            Platform::Now => "Now",
            Platform::Afreeca => "Afreeca",
        }
    }

    /// Every platform, in declaration order.
    pub fn all() -> (r: Vec<Platform>)
        ensures
            r@ == seq![
                Platform::BiliBili,
                Platform::DouYu,
                Platform::DouYin,
                Platform::HuYa,
                Platform::KuaiShou,
                Platform::CC,
                Platform::HuaJiao,
                Platform::Now,
                Platform::Afreeca,
            ],
    {
        vec![
            Platform::BiliBili,
            Platform::DouYu,
            Platform::DouYin,
            Platform::HuYa,
            Platform::KuaiShou,
            Platform::CC,
            Platform::HuaJiao,
            Platform::Now,
            Platform::Afreeca,
        ]
    }

    /// Reads the platform out of a follow command.
    pub fn from_follow(arg: &str) -> (r: Option<Platform>)
        ensures
            r == Platform::parse_follow(arg@),
    {
        if str_eq(arg, "bilibili") {
            Some(Platform::BiliBili)
        } else if str_eq(arg, "douyu") {
            Some(Platform::DouYu)
        } else if str_eq(arg, "douyin") {
            Some(Platform::DouYin)
        } else if str_eq(arg, "huya") {
            Some(Platform::HuYa)
        } else {
            None
        }
    }

    /// Reads the platform out of a saved record.
    pub fn from_arg(arg: &str) -> (r: Option<Platform>)
        ensures
            r == Platform::parse_arg(arg@),
    {
        if str_eq(arg, "bilibili") || str_eq(arg, "bili") {
            Some(Platform::BiliBili)
        } else if str_eq(arg, "douyu") {
            Some(Platform::DouYu)
        } else if str_eq(arg, "douyin") {
            Some(Platform::DouYin)
        } else if str_eq(arg, "huya") {
            Some(Platform::HuYa)
        } else if str_eq(arg, "kuaishou") {
            Some(Platform::KuaiShou)
        } else if str_eq(arg, "cc") {
            Some(Platform::CC)
        } else if str_eq(arg, "huajiao") {
            Some(Platform::HuaJiao)
        } else if str_eq(arg, "now") {
            Some(Platform::Now)
        } else if str_eq(arg, "afreeca") {
            Some(Platform::Afreeca)
        } else {
            None
        }
    }
}

impl From<&str> for Platform {
    fn from(value: &str) -> (r: Platform) {
        if str_eq(value, "DouYu") {
            Platform::DouYu
        } else if str_eq(value, "DouYin") {
            Platform::DouYin
        } else if str_eq(value, "HuYa") {
            Platform::HuYa
        } else if str_eq(value, "KuaiShou") {
            Platform::KuaiShou
        } else if str_eq(value, "CC") {
            Platform::CC
        } else if str_eq(value, "HuaJiao") {
            Platform::HuaJiao
        } else if str_eq(value, "Now") {
            Platform::Now
        } else if str_eq(value, "Afreeca") {
            Platform::Afreeca
        } else {
            Platform::BiliBili
        }
    }
}

impl vstd::std_specs::convert::FromSpecImpl<&str> for Platform {
    open spec fn obeys_from_spec() -> bool {
        true
    }

    open spec fn from_spec(value: &str) -> Platform {
        Platform::from_name(value@)
    }
}

/// Reading a variant's own name gives the variant back.
pub proof fn lemma_name_round_trip(p: Platform)
    ensures
        Platform::from_name(p.variant_name()) == p,
{
    reveal_strlit("BiliBili");
    reveal_strlit("DouYu");
    reveal_strlit("DouYin");
    reveal_strlit("HuYa");
    reveal_strlit("KuaiShou");
    reveal_strlit("CC");
    reveal_strlit("HuaJiao");
    reveal_strlit("Now");
    reveal_strlit("Afreeca");
    assert("BiliBili"@.len() == 8 && "BiliBili"@[0] == 'B');
    assert("DouYu"@.len() == 5);
    assert("DouYin"@.len() == 6);
    assert("HuYa"@.len() == 4);
    assert("KuaiShou"@.len() == 8 && "KuaiShou"@[0] == 'K');
    assert("CC"@.len() == 2);
    assert("HuaJiao"@.len() == 7 && "HuaJiao"@[0] == 'H');
    assert("Now"@.len() == 3);
    assert("Afreeca"@.len() == 7 && "Afreeca"@[0] == 'A');
}

} // verus!
