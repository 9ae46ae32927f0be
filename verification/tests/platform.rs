use seamui::platform::Platform;

#[test]
fn seam_arg_of_each_platform() {
    assert_eq!(Platform::BiliBili.as_seam_arg(), "bili");
    assert_eq!(Platform::DouYu.as_seam_arg(), "douyu");
    assert_eq!(Platform::DouYin.as_seam_arg(), "douyin");
    assert_eq!(Platform::HuYa.as_seam_arg(), "huya");
    assert_eq!(Platform::KuaiShou.as_seam_arg(), "kuaishou");
    assert_eq!(Platform::CC.as_seam_arg(), "cc");
    assert_eq!(Platform::HuaJiao.as_seam_arg(), "huajiao");
    assert_eq!(Platform::Now.as_seam_arg(), "now");
    assert_eq!(Platform::Afreeca.as_seam_arg(), "afreeca");
}

#[test]
fn ui_text_of_each_platform() {
    assert_eq!(Platform::BiliBili.as_ui_text(), "B站");
    assert_eq!(Platform::DouYu.as_ui_text(), "斗鱼");
    assert_eq!(Platform::DouYin.as_ui_text(), "抖音");
    assert_eq!(Platform::HuYa.as_ui_text(), "虎牙");
    assert_eq!(Platform::KuaiShou.as_ui_text(), "快手");
    assert_eq!(Platform::CC.as_ui_text(), "CC");
    assert_eq!(Platform::HuaJiao.as_ui_text(), "花椒");
    assert_eq!(Platform::Now.as_ui_text(), "Now");
    assert_eq!(Platform::Afreeca.as_ui_text(), "Afreeca");
}

#[test]
fn platform_from_selection_name() {
    assert_eq!(Platform::from("BiliBili"), Platform::BiliBili);
    assert_eq!(Platform::from("DouYu"), Platform::DouYu);
    assert_eq!(Platform::from("DouYin"), Platform::DouYin);
    assert_eq!(Platform::from("HuYa"), Platform::HuYa);
    assert_eq!(Platform::from("KuaiShou"), Platform::KuaiShou);
    assert_eq!(Platform::from("CC"), Platform::CC);
    assert_eq!(Platform::from("HuaJiao"), Platform::HuaJiao);
    assert_eq!(Platform::from("Now"), Platform::Now);
    assert_eq!(Platform::from("Afreeca"), Platform::Afreeca);
}

#[test]
fn unknown_selection_name_is_bilibili() {
    assert_eq!(Platform::from(""), Platform::BiliBili);
    assert_eq!(Platform::from("huya"), Platform::BiliBili);
    assert_eq!(Platform::from("Twitch"), Platform::BiliBili);
}

#[test]
fn every_name_reads_back_as_its_platform() {
    let all = Platform::all();
    assert_eq!(all.len(), 9);
    for p in all {
        assert_eq!(Platform::from(p.name()), p);
    }
}

#[test]
fn platform_from_saved_name() {
    assert_eq!(Platform::from_arg("bilibili"), Some(Platform::BiliBili));
    assert_eq!(Platform::from_arg("bili"), Some(Platform::BiliBili));
    assert_eq!(Platform::from_arg("douyu"), Some(Platform::DouYu));
    assert_eq!(Platform::from_arg("douyin"), Some(Platform::DouYin));
    assert_eq!(Platform::from_arg("huya"), Some(Platform::HuYa));
    assert_eq!(Platform::from_arg("kuaishou"), Some(Platform::KuaiShou));
    assert_eq!(Platform::from_arg("cc"), Some(Platform::CC));
    assert_eq!(Platform::from_arg("huajiao"), Some(Platform::HuaJiao));
    assert_eq!(Platform::from_arg("now"), Some(Platform::Now));
    assert_eq!(Platform::from_arg("afreeca"), Some(Platform::Afreeca));
    assert_eq!(Platform::from_arg("HuYa"), None);
    assert_eq!(Platform::from_arg(""), None);
}

#[test]
fn saved_name_of_each_platform_reads_back() {
    for p in Platform::all() {
        assert_eq!(Platform::from_arg(p.as_seam_arg()), Some(p));
    }
}

#[test]
fn platforms_that_can_be_followed() {
    assert_eq!(Platform::from_follow("bilibili"), Some(Platform::BiliBili));
    assert_eq!(Platform::from_follow("douyu"), Some(Platform::DouYu));
    assert_eq!(Platform::from_follow("douyin"), Some(Platform::DouYin));
    assert_eq!(Platform::from_follow("huya"), Some(Platform::HuYa));
    for name in ["bili", "kuaishou", "cc", "huajiao", "now", "afreeca", "HuYa", "Huya", "", "huya "] {
        assert_eq!(Platform::from_follow(name), None);
    }
}
