use n_m3u8_re_rust::i18n::I18n;

#[test]
fn translations() {
    let en = I18n::new("en-US");
    assert_eq!(en.get("loading_stream"), "Loading stream...");
    assert_eq!(en.get("save_name"), "Save name: ");
    let cn = I18n::new("zh-CN");
    assert_eq!(cn.get("download_completed"), "下载完成！");
    let tw = I18n::new("zh-TW");
    assert_eq!(tw.get("loading_stream"), "載入媒體流...");
    assert_eq!(tw.get("app_name"), "N_m3u8-RE");
}

#[test]
fn unknown_key_falls_back_to_key() {
    let en = I18n::new("en-US");
    assert_eq!(en.get("no_such_key"), "no_such_key");
}

#[test]
fn unknown_language_is_english() {
    let fr = I18n::new("fr-FR");
    assert_eq!(fr.get("version"), "Version");
    assert_eq!(fr.get("found_streams"), I18n::new("en-US").get("found_streams"));
}
