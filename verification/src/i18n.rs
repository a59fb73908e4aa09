//! Interface texts in English, simplified and traditional Chinese.
use vstd::prelude::*;
use crate::text::{chars_of, eq_str};

verus! {

/// A translation table: `(key, text)` pairs in insertion order.
pub open spec fn table_view(v: Seq<(String, String)>) -> Seq<(Seq<char>, Seq<char>)> {
    v.map_values(|p: (String, String)| (p.0@, p.1@))
}

/// The text a table gives for `key`: that of its last entry with the key
/// (a later entry overrides an earlier one, as a map insert does).
pub open spec fn lookup(table: Seq<(Seq<char>, Seq<char>)>, key: Seq<char>) -> Option<Seq<char>>
    decreases table.len(),
{
    if table.len() == 0 {
        None
    } else if table.last().0 == key {
        Some(table.last().1)
    } else {
        lookup(table.drop_last(), key)
    }
}

fn push_entry(v: &mut Vec<(String, String)>, k: &str, t: &str)
    ensures
        table_view(final(v)@) == table_view(old(v)@).push((k@, t@)),
{
    let ghost before = v@;
    v.push((String::from_str(k), String::from_str(t)));
    assert(table_view(v@) =~= table_view(before).push((k@, t@)));
}

/// The `en` table.
pub open spec fn en_table() -> Seq<(Seq<char>, Seq<char>)> {
    seq![
        ("app_name"@, "N_m3u8-RE"@),
        ("version"@, "Version"@),
        ("loading_stream"@, "Loading stream..."@),
        ("found_streams"@, "Found {} streams:"@),
        ("no_streams_found"@, "No streams found"@),
        ("downloading"@, "Downloading..."@),
        ("recording"@, "Recording..."@),
        ("download_completed"@, "Download completed!"@),
        ("download_failed"@, "Download failed!"@),
        ("recording_completed"@, "Recording completed!"@),
        ("recording_failed"@, "Recording failed!"@),
        ("ffmpeg_not_found"@, "FFmpeg not found"@),
        ("mkvmerge_not_found"@, "MKVMerge not found"@),
        ("shaka_packager_not_found"@, "Shaka Packager not found"@),
        ("mp4decrypt_not_found"@, "mp4decrypt not found"@),
        ("console_redirected"@, "Console output is redirected"@),
        ("new_version_found"@, "New version found"@),
        ("live_found"@, "Live stream found"@),
        ("auto_binary_merge3"@, "Unknown encryption method detected, automatically enabling binary merge"@),
        ("auto_binary_merge6"@, "MuxAfterDone enabled, automatically enabling binary merge"@),
        ("write_json"@, "Writing JSON files"@),
        ("selected_stream"@, "Selected streams:"@),
        ("streams_info"@, "Stream information: {} total, {} video, {} audio, {} subtitle"@),
        ("task_start_at"@, "Task will start at: "@),
        ("save_name"@, "Save name: "@),
    ]
}

fn en_translations() -> (r: Vec<(String, String)>)
    ensures
        table_view(r@) == en_table(),
{
    let mut v: Vec<(String, String)> = Vec::new();
    assert(table_view(v@) =~= Seq::<(Seq<char>, Seq<char>)>::empty());
    push_entry(&mut v, "app_name", "N_m3u8-RE");
    push_entry(&mut v, "version", "Version");
    push_entry(&mut v, "loading_stream", "Loading stream...");
    push_entry(&mut v, "found_streams", "Found {} streams:");
    push_entry(&mut v, "no_streams_found", "No streams found");
    push_entry(&mut v, "downloading", "Downloading...");
    push_entry(&mut v, "recording", "Recording...");
    push_entry(&mut v, "download_completed", "Download completed!");
    push_entry(&mut v, "download_failed", "Download failed!");
    push_entry(&mut v, "recording_completed", "Recording completed!");
    push_entry(&mut v, "recording_failed", "Recording failed!");
    push_entry(&mut v, "ffmpeg_not_found", "FFmpeg not found");
    push_entry(&mut v, "mkvmerge_not_found", "MKVMerge not found");
    push_entry(&mut v, "shaka_packager_not_found", "Shaka Packager not found");
    push_entry(&mut v, "mp4decrypt_not_found", "mp4decrypt not found");
    push_entry(&mut v, "console_redirected", "Console output is redirected");
    push_entry(&mut v, "new_version_found", "New version found");
    push_entry(&mut v, "live_found", "Live stream found");
    push_entry(&mut v, "auto_binary_merge3", "Unknown encryption method detected, automatically enabling binary merge");
    push_entry(&mut v, "auto_binary_merge6", "MuxAfterDone enabled, automatically enabling binary merge");
    push_entry(&mut v, "write_json", "Writing JSON files");
    push_entry(&mut v, "selected_stream", "Selected streams:");
    push_entry(&mut v, "streams_info", "Stream information: {} total, {} video, {} audio, {} subtitle");
    push_entry(&mut v, "task_start_at", "Task will start at: ");
    push_entry(&mut v, "save_name", "Save name: ");
    assert(table_view(v@) =~= en_table());
    v
}

/// The `zh_cn` table.
pub open spec fn zh_cn_table() -> Seq<(Seq<char>, Seq<char>)> {
    seq![
        ("app_name"@, "N_m3u8-RE"@),
        ("version"@, "版本"@),
        ("loading_stream"@, "加载媒体流..."@),
        ("found_streams"@, "找到 {} 个流:"@),
        ("no_streams_found"@, "没有找到可下载的流"@),
        ("downloading"@, "下载中..."@),
        ("recording"@, "录制中..."@),
        ("download_completed"@, "下载完成！"@),
        ("download_failed"@, "下载失败！"@),
        ("recording_completed"@, "录制完成！"@),
        ("recording_failed"@, "录制失败！"@),
        ("ffmpeg_not_found"@, "未找到FFmpeg"@),
        ("mkvmerge_not_found"@, "未找到MKVMerge"@),
        ("shaka_packager_not_found"@, "未找到Shaka Packager"@),
        ("mp4decrypt_not_found"@, "未找到mp4decrypt"@),
        ("console_redirected"@, "控制台输出已重定向"@),
        ("new_version_found"@, "发现新版本"@),
        ("live_found"@, "发现直播流"@),
        ("auto_binary_merge3"@, "检测到未知的加密方式，自动开启二进制合并"@),
        ("auto_binary_merge6"@, "开启了MuxAfterDone，自动开启二进制合并"@),
        ("write_json"@, "正在写入JSON文件"@),
        ("selected_stream"@, "已选择的流:"@),
        ("streams_info"@, "流信息：共 {} 个，{} 个视频，{} 个音频，{} 个字幕"@),
        ("task_start_at"@, "任务将在以下时间开始："@),
        ("save_name"@, "保存名称："@),
    ]
}

fn zh_cn_translations() -> (r: Vec<(String, String)>)
    ensures
        table_view(r@) == zh_cn_table(),
{
    let mut v: Vec<(String, String)> = Vec::new();
    assert(table_view(v@) =~= Seq::<(Seq<char>, Seq<char>)>::empty());
    push_entry(&mut v, "app_name", "N_m3u8-RE");
    push_entry(&mut v, "version", "版本");
    push_entry(&mut v, "loading_stream", "加载媒体流...");
    push_entry(&mut v, "found_streams", "找到 {} 个流:");
    push_entry(&mut v, "no_streams_found", "没有找到可下载的流");
    push_entry(&mut v, "downloading", "下载中...");
    push_entry(&mut v, "recording", "录制中...");
    push_entry(&mut v, "download_completed", "下载完成！");
    push_entry(&mut v, "download_failed", "下载失败！");
    push_entry(&mut v, "recording_completed", "录制完成！");
    push_entry(&mut v, "recording_failed", "录制失败！");
    push_entry(&mut v, "ffmpeg_not_found", "未找到FFmpeg");
    push_entry(&mut v, "mkvmerge_not_found", "未找到MKVMerge");
    push_entry(&mut v, "shaka_packager_not_found", "未找到Shaka Packager");
    push_entry(&mut v, "mp4decrypt_not_found", "未找到mp4decrypt");
    push_entry(&mut v, "console_redirected", "控制台输出已重定向");
    push_entry(&mut v, "new_version_found", "发现新版本");
    push_entry(&mut v, "live_found", "发现直播流");
    push_entry(&mut v, "auto_binary_merge3", "检测到未知的加密方式，自动开启二进制合并");
    push_entry(&mut v, "auto_binary_merge6", "开启了MuxAfterDone，自动开启二进制合并");
    push_entry(&mut v, "write_json", "正在写入JSON文件");
    push_entry(&mut v, "selected_stream", "已选择的流:");
    push_entry(&mut v, "streams_info", "流信息：共 {} 个，{} 个视频，{} 个音频，{} 个字幕");
    push_entry(&mut v, "task_start_at", "任务将在以下时间开始：");
    push_entry(&mut v, "save_name", "保存名称：");
    assert(table_view(v@) =~= zh_cn_table());
    v
}

/// The `zh_tw` table.
pub open spec fn zh_tw_table() -> Seq<(Seq<char>, Seq<char>)> {
    seq![
        ("app_name"@, "N_m3u8-RE"@),
        ("version"@, "版本"@),
        ("loading_stream"@, "載入媒體流..."@),
        ("found_streams"@, "找到 {} 個流:"@),
        ("no_streams_found"@, "沒有找到可下載的流"@),
        ("downloading"@, "下載中..."@),
        ("recording"@, "錄製中..."@),
        ("download_completed"@, "下載完成！"@),
        ("download_failed"@, "下載失敗！"@),
        ("recording_completed"@, "錄製完成！"@),
        ("recording_failed"@, "錄製失敗！"@),
        ("ffmpeg_not_found"@, "未找到FFmpeg"@),
        ("mkvmerge_not_found"@, "未找到MKVMerge"@),
        ("shaka_packager_not_found"@, "未找到Shaka Packager"@),
        ("mp4decrypt_not_found"@, "未找到mp4decrypt"@),
        ("console_redirected"@, "控制台輸出已重新導向"@),
        ("new_version_found"@, "發現新版本"@),
        ("live_found"@, "發現直播流"@),
        ("auto_binary_merge3"@, "檢測到未知的加密方式，自動開啟二進制合併"@),
        ("auto_binary_merge6"@, "開啟了MuxAfterDone，自動開啟二進制合併"@),
        ("write_json"@, "正在寫入JSON文件"@),
        ("selected_stream"@, "已選擇的流:"@),
        ("streams_info"@, "流資訊：共 {} 個，{} 個視頻，{} 個音頻，{} 個字幕"@),
        ("task_start_at"@, "任務將在以下時間開始："@),
        ("save_name"@, "保存名稱："@),
    ]
}

fn zh_tw_translations() -> (r: Vec<(String, String)>)
    ensures
        table_view(r@) == zh_tw_table(),
{
    let mut v: Vec<(String, String)> = Vec::new();
    assert(table_view(v@) =~= Seq::<(Seq<char>, Seq<char>)>::empty());
    push_entry(&mut v, "app_name", "N_m3u8-RE");
    push_entry(&mut v, "version", "版本");
    push_entry(&mut v, "loading_stream", "載入媒體流...");
    push_entry(&mut v, "found_streams", "找到 {} 個流:");
    push_entry(&mut v, "no_streams_found", "沒有找到可下載的流");
    push_entry(&mut v, "downloading", "下載中...");
    push_entry(&mut v, "recording", "錄製中...");
    push_entry(&mut v, "download_completed", "下載完成！");
    push_entry(&mut v, "download_failed", "下載失敗！");
    push_entry(&mut v, "recording_completed", "錄製完成！");
    push_entry(&mut v, "recording_failed", "錄製失敗！");
    push_entry(&mut v, "ffmpeg_not_found", "未找到FFmpeg");
    push_entry(&mut v, "mkvmerge_not_found", "未找到MKVMerge");
    push_entry(&mut v, "shaka_packager_not_found", "未找到Shaka Packager");
    push_entry(&mut v, "mp4decrypt_not_found", "未找到mp4decrypt");
    push_entry(&mut v, "console_redirected", "控制台輸出已重新導向");
    push_entry(&mut v, "new_version_found", "發現新版本");
    push_entry(&mut v, "live_found", "發現直播流");
    push_entry(&mut v, "auto_binary_merge3", "檢測到未知的加密方式，自動開啟二進制合併");
    push_entry(&mut v, "auto_binary_merge6", "開啟了MuxAfterDone，自動開啟二進制合併");
    push_entry(&mut v, "write_json", "正在寫入JSON文件");
    push_entry(&mut v, "selected_stream", "已選擇的流:");
    push_entry(&mut v, "streams_info", "流資訊：共 {} 個，{} 個視頻，{} 個音頻，{} 個字幕");
    push_entry(&mut v, "task_start_at", "任務將在以下時間開始：");
    push_entry(&mut v, "save_name", "保存名稱：");
    assert(table_view(v@) =~= zh_tw_table());
    v
}

/// The table of a language tag; English for any tag but `en-US`, `zh-CN`
/// and `zh-TW`.
pub open spec fn table_for(language: Seq<char>) -> Seq<(Seq<char>, Seq<char>)> {
    if language == "en-US"@ {
        en_table()
    } else if language == "zh-CN"@ {
        zh_cn_table()
    } else if language == "zh-TW"@ {
        zh_tw_table()
    } else {
        en_table()
    }
}

/// The text of `key` in a table, or the key itself where the table has none.
pub open spec fn translate(table: Seq<(Seq<char>, Seq<char>)>, key: Seq<char>) -> Seq<char> {
    match lookup(table, key) {
        Some(t) => t,
        None => key,
    }
}

/// The interface texts of one language.
#[derive(Debug, Clone)]
pub struct I18n {
    translations: Vec<(String, String)>,
}

impl I18n {
    /// The table in use.
    pub closed spec fn table(&self) -> Seq<(Seq<char>, Seq<char>)> {
        table_view(self.translations@)
    }

    /// The texts of a language tag (`en-US`, `zh-CN`, `zh-TW`; English
    /// otherwise).
    pub fn new(language: &str) -> (r: Self)
        ensures
            r.table() == table_for(language@),
    {
        let l = chars_of(language);
        let translations = if eq_str(l.as_slice(), "en-US") {
            en_translations()
        } else if eq_str(l.as_slice(), "zh-CN") {
            zh_cn_translations()
        } else if eq_str(l.as_slice(), "zh-TW") {
            zh_tw_translations()
        } else {
            en_translations()
        };
        I18n { translations }
    }

    /// The text of `key`, or `key` itself where there is none.
    pub fn get<'a>(&'a self, key: &'a str) -> (r: &'a str)
        ensures
            r@ == translate(self.table(), key@),
    {
        let k = chars_of(key);
        let mut i: usize = self.translations.len();
        assert(self.table().take(i as int) =~= self.table());
        while i > 0
            invariant
                i <= self.translations@.len(),
                lookup(self.table(), key@) == lookup(self.table().take(i as int), key@),
            decreases i,
        {
            let entry = &self.translations[i - 1];
            let ek = chars_of(entry.0.as_str());
            assert(self.table().take(i as int).last() == (entry.0@, entry.1@));
            if eq_str(ek.as_slice(), key) {
                assert(ek@ == key@);
                return entry.1.as_str();
            }
            assert(self.table().take(i as int).drop_last() =~= self.table().take(i - 1));
            i = i - 1;
        }
        key
    }
}

/// A language without a table of its own reads English.
pub proof fn lemma_unknown_language_is_english(language: Seq<char>)
    requires
        language != "en-US"@,
        language != "zh-CN"@,
        language != "zh-TW"@,
    ensures
        table_for(language) == table_for("en-US"@),
{
}

/// The keys of the English texts, in order.
spec fn text_keys() -> Seq<Seq<char>> {
    seq![
        "app_name"@,
        "version"@,
        "loading_stream"@,
        "found_streams"@,
        "no_streams_found"@,
        "downloading"@,
        "recording"@,
        "download_completed"@,
        "download_failed"@,
        "recording_completed"@,
        "recording_failed"@,
        "ffmpeg_not_found"@,
        "mkvmerge_not_found"@,
        "shaka_packager_not_found"@,
        "mp4decrypt_not_found"@,
        "console_redirected"@,
        "new_version_found"@,
        "live_found"@,
        "auto_binary_merge3"@,
        "auto_binary_merge6"@,
        "write_json"@,
        "selected_stream"@,
        "streams_info"@,
        "task_start_at"@,
        "save_name"@,
    ]
}

proof fn lemma_keys_distinct()
    ensures
        en_table().len() == text_keys().len(),
        forall|a: int| 0 <= a < en_table().len() ==> #[trigger] en_table()[a].0 == text_keys()[a],
        forall|a: int, b: int|
            0 <= a < b < en_table().len() ==> (#[trigger] en_table()[a]).0 != (
            #[trigger] en_table()[b]).0,
{
    reveal_strlit("app_name");
    reveal_strlit("version");
    reveal_strlit("loading_stream");
    reveal_strlit("found_streams");
    reveal_strlit("no_streams_found");
    reveal_strlit("downloading");
    reveal_strlit("recording");
    reveal_strlit("download_completed");
    reveal_strlit("download_failed");
    reveal_strlit("recording_completed");
    reveal_strlit("recording_failed");
    reveal_strlit("ffmpeg_not_found");
    reveal_strlit("mkvmerge_not_found");
    reveal_strlit("shaka_packager_not_found");
    reveal_strlit("mp4decrypt_not_found");
    reveal_strlit("console_redirected");
    reveal_strlit("new_version_found");
    reveal_strlit("live_found");
    reveal_strlit("auto_binary_merge3");
    reveal_strlit("auto_binary_merge6");
    reveal_strlit("write_json");
    reveal_strlit("selected_stream");
    reveal_strlit("streams_info");
    reveal_strlit("task_start_at");
    reveal_strlit("save_name");

    let k = text_keys();
    assert forall|a: int| 0 <= a < en_table().len() implies #[trigger] en_table()[a].0 == k[a] by {}
    assert forall|a: int, b: int| 0 <= a < b < k.len() implies #[trigger] k[a] != #[trigger] k[b] by {
        assert("app_name"@[0] != "version"@[0]);
        assert("app_name"@[0] != "loading_stream"@[0]);
        assert("app_name"@[0] != "found_streams"@[0]);
        assert("app_name"@[0] != "no_streams_found"@[0]);
        assert("app_name"@[0] != "downloading"@[0]);
        assert("app_name"@[0] != "recording"@[0]);
        assert("app_name"@[0] != "download_completed"@[0]);
        assert("app_name"@[0] != "download_failed"@[0]);
        assert("app_name"@[0] != "recording_completed"@[0]);
        assert("app_name"@[0] != "recording_failed"@[0]);
        assert("app_name"@[0] != "ffmpeg_not_found"@[0]);
        assert("app_name"@[0] != "mkvmerge_not_found"@[0]);
        assert("app_name"@[0] != "shaka_packager_not_found"@[0]);
        assert("app_name"@[0] != "mp4decrypt_not_found"@[0]);
        assert("app_name"@[0] != "console_redirected"@[0]);
        assert("app_name"@[0] != "new_version_found"@[0]);
        assert("app_name"@[0] != "live_found"@[0]);
        assert("app_name"@[1] != "auto_binary_merge3"@[1]);
        assert("app_name"@[1] != "auto_binary_merge6"@[1]);
        assert("app_name"@[0] != "write_json"@[0]);
        assert("app_name"@[0] != "selected_stream"@[0]);
        assert("app_name"@[0] != "streams_info"@[0]);
        assert("app_name"@[0] != "task_start_at"@[0]);
        assert("app_name"@[0] != "save_name"@[0]);
        assert("version"@[0] != "loading_stream"@[0]);
        assert("version"@[0] != "found_streams"@[0]);
        assert("version"@[0] != "no_streams_found"@[0]);
        assert("version"@[0] != "downloading"@[0]);
        assert("version"@[0] != "recording"@[0]);
        assert("version"@[0] != "download_completed"@[0]);
        assert("version"@[0] != "download_failed"@[0]);
        assert("version"@[0] != "recording_completed"@[0]);
        assert("version"@[0] != "recording_failed"@[0]);
        assert("version"@[0] != "ffmpeg_not_found"@[0]);
        assert("version"@[0] != "mkvmerge_not_found"@[0]);
        assert("version"@[0] != "shaka_packager_not_found"@[0]);
        assert("version"@[0] != "mp4decrypt_not_found"@[0]);
        assert("version"@[0] != "console_redirected"@[0]);
        assert("version"@[0] != "new_version_found"@[0]);
        assert("version"@[0] != "live_found"@[0]);
        assert("version"@[0] != "auto_binary_merge3"@[0]);
        assert("version"@[0] != "auto_binary_merge6"@[0]);
        assert("version"@[0] != "write_json"@[0]);
        assert("version"@[0] != "selected_stream"@[0]);
        assert("version"@[0] != "streams_info"@[0]);
        assert("version"@[0] != "task_start_at"@[0]);
        assert("version"@[0] != "save_name"@[0]);
        assert("loading_stream"@[0] != "found_streams"@[0]);
        assert("loading_stream"@[0] != "no_streams_found"@[0]);
        assert("loading_stream"@[0] != "downloading"@[0]);
        assert("loading_stream"@[0] != "recording"@[0]);
        assert("loading_stream"@[0] != "download_completed"@[0]);
        assert("loading_stream"@[0] != "download_failed"@[0]);
        assert("loading_stream"@[0] != "recording_completed"@[0]);
        assert("loading_stream"@[0] != "recording_failed"@[0]);
        assert("loading_stream"@[0] != "ffmpeg_not_found"@[0]);
        assert("loading_stream"@[0] != "mkvmerge_not_found"@[0]);
        assert("loading_stream"@[0] != "shaka_packager_not_found"@[0]);
        assert("loading_stream"@[0] != "mp4decrypt_not_found"@[0]);
        assert("loading_stream"@[0] != "console_redirected"@[0]);
        assert("loading_stream"@[0] != "new_version_found"@[0]);
        assert("loading_stream"@[1] != "live_found"@[1]);
        assert("loading_stream"@[0] != "auto_binary_merge3"@[0]);
        assert("loading_stream"@[0] != "auto_binary_merge6"@[0]);
        assert("loading_stream"@[0] != "write_json"@[0]);
        assert("loading_stream"@[0] != "selected_stream"@[0]);
        assert("loading_stream"@[0] != "streams_info"@[0]);
        assert("loading_stream"@[0] != "task_start_at"@[0]);
        assert("loading_stream"@[0] != "save_name"@[0]);
        assert("found_streams"@[0] != "no_streams_found"@[0]);
        assert("found_streams"@[0] != "downloading"@[0]);
        assert("found_streams"@[0] != "recording"@[0]);
        assert("found_streams"@[0] != "download_completed"@[0]);
        assert("found_streams"@[0] != "download_failed"@[0]);
        assert("found_streams"@[0] != "recording_completed"@[0]);
        assert("found_streams"@[0] != "recording_failed"@[0]);
        assert("found_streams"@[1] != "ffmpeg_not_found"@[1]);
        assert("found_streams"@[0] != "mkvmerge_not_found"@[0]);
        assert("found_streams"@[0] != "shaka_packager_not_found"@[0]);
        assert("found_streams"@[0] != "mp4decrypt_not_found"@[0]);
        assert("found_streams"@[0] != "console_redirected"@[0]);
        assert("found_streams"@[0] != "new_version_found"@[0]);
        assert("found_streams"@[0] != "live_found"@[0]);
        assert("found_streams"@[0] != "auto_binary_merge3"@[0]);
        assert("found_streams"@[0] != "auto_binary_merge6"@[0]);
        assert("found_streams"@[0] != "write_json"@[0]);
        assert("found_streams"@[0] != "selected_stream"@[0]);
        assert("found_streams"@[0] != "streams_info"@[0]);
        assert("found_streams"@[0] != "task_start_at"@[0]);
        assert("found_streams"@[0] != "save_name"@[0]);
        assert("no_streams_found"@[0] != "downloading"@[0]);
        assert("no_streams_found"@[0] != "recording"@[0]);
        assert("no_streams_found"@[0] != "download_completed"@[0]);
        assert("no_streams_found"@[0] != "download_failed"@[0]);
        assert("no_streams_found"@[0] != "recording_completed"@[0]);
        assert("no_streams_found"@[0] != "recording_failed"@[0]);
        assert("no_streams_found"@[0] != "ffmpeg_not_found"@[0]);
        assert("no_streams_found"@[0] != "mkvmerge_not_found"@[0]);
        assert("no_streams_found"@[0] != "shaka_packager_not_found"@[0]);
        assert("no_streams_found"@[0] != "mp4decrypt_not_found"@[0]);
        assert("no_streams_found"@[0] != "console_redirected"@[0]);
        assert("no_streams_found"@[1] != "new_version_found"@[1]);
        assert("no_streams_found"@[0] != "live_found"@[0]);
        assert("no_streams_found"@[0] != "auto_binary_merge3"@[0]);
        assert("no_streams_found"@[0] != "auto_binary_merge6"@[0]);
        assert("no_streams_found"@[0] != "write_json"@[0]);
        assert("no_streams_found"@[0] != "selected_stream"@[0]);
        assert("no_streams_found"@[0] != "streams_info"@[0]);
        assert("no_streams_found"@[0] != "task_start_at"@[0]);
        assert("no_streams_found"@[0] != "save_name"@[0]);
        assert("downloading"@[0] != "recording"@[0]);
        assert("downloading"@[8] != "download_completed"@[8]);
        assert("downloading"@[8] != "download_failed"@[8]);
        assert("downloading"@[0] != "recording_completed"@[0]);
        assert("downloading"@[0] != "recording_failed"@[0]);
        assert("downloading"@[0] != "ffmpeg_not_found"@[0]);
        assert("downloading"@[0] != "mkvmerge_not_found"@[0]);
        assert("downloading"@[0] != "shaka_packager_not_found"@[0]);
        assert("downloading"@[0] != "mp4decrypt_not_found"@[0]);
        assert("downloading"@[0] != "console_redirected"@[0]);
        assert("downloading"@[0] != "new_version_found"@[0]);
        assert("downloading"@[0] != "live_found"@[0]);
        assert("downloading"@[0] != "auto_binary_merge3"@[0]);
        assert("downloading"@[0] != "auto_binary_merge6"@[0]);
        assert("downloading"@[0] != "write_json"@[0]);
        assert("downloading"@[0] != "selected_stream"@[0]);
        assert("downloading"@[0] != "streams_info"@[0]);
        assert("downloading"@[0] != "task_start_at"@[0]);
        assert("downloading"@[0] != "save_name"@[0]);
        assert("recording"@[0] != "download_completed"@[0]);
        assert("recording"@[0] != "download_failed"@[0]);
        assert("recording"@.len() != "recording_completed"@.len());
        assert("recording"@.len() != "recording_failed"@.len());
        assert("recording"@[0] != "ffmpeg_not_found"@[0]);
        assert("recording"@[0] != "mkvmerge_not_found"@[0]);
        assert("recording"@[0] != "shaka_packager_not_found"@[0]);
        assert("recording"@[0] != "mp4decrypt_not_found"@[0]);
        assert("recording"@[0] != "console_redirected"@[0]);
        assert("recording"@[0] != "new_version_found"@[0]);
        assert("recording"@[0] != "live_found"@[0]);
        assert("recording"@[0] != "auto_binary_merge3"@[0]);
        assert("recording"@[0] != "auto_binary_merge6"@[0]);
        assert("recording"@[0] != "write_json"@[0]);
        assert("recording"@[0] != "selected_stream"@[0]);
        assert("recording"@[0] != "streams_info"@[0]);
        assert("recording"@[0] != "task_start_at"@[0]);
        assert("recording"@[0] != "save_name"@[0]);
        assert("download_completed"@[9] != "download_failed"@[9]);
        assert("download_completed"@[0] != "recording_completed"@[0]);
        assert("download_completed"@[0] != "recording_failed"@[0]);
        assert("download_completed"@[0] != "ffmpeg_not_found"@[0]);
        assert("download_completed"@[0] != "mkvmerge_not_found"@[0]);
        assert("download_completed"@[0] != "shaka_packager_not_found"@[0]);
        assert("download_completed"@[0] != "mp4decrypt_not_found"@[0]);
        assert("download_completed"@[0] != "console_redirected"@[0]);
        assert("download_completed"@[0] != "new_version_found"@[0]);
        assert("download_completed"@[0] != "live_found"@[0]);
        assert("download_completed"@[0] != "auto_binary_merge3"@[0]);
        assert("download_completed"@[0] != "auto_binary_merge6"@[0]);
        assert("download_completed"@[0] != "write_json"@[0]);
        assert("download_completed"@[0] != "selected_stream"@[0]);
        assert("download_completed"@[0] != "streams_info"@[0]);
        assert("download_completed"@[0] != "task_start_at"@[0]);
        assert("download_completed"@[0] != "save_name"@[0]);
        assert("download_failed"@[0] != "recording_completed"@[0]);
        assert("download_failed"@[0] != "recording_failed"@[0]);
        assert("download_failed"@[0] != "ffmpeg_not_found"@[0]);
        assert("download_failed"@[0] != "mkvmerge_not_found"@[0]);
        assert("download_failed"@[0] != "shaka_packager_not_found"@[0]);
        assert("download_failed"@[0] != "mp4decrypt_not_found"@[0]);
        assert("download_failed"@[0] != "console_redirected"@[0]);
        assert("download_failed"@[0] != "new_version_found"@[0]);
        assert("download_failed"@[0] != "live_found"@[0]);
        assert("download_failed"@[0] != "auto_binary_merge3"@[0]);
        assert("download_failed"@[0] != "auto_binary_merge6"@[0]);
        assert("download_failed"@[0] != "write_json"@[0]);
        assert("download_failed"@[0] != "selected_stream"@[0]);
        assert("download_failed"@[0] != "streams_info"@[0]);
        assert("download_failed"@[0] != "task_start_at"@[0]);
        assert("download_failed"@[0] != "save_name"@[0]);
        assert("recording_completed"@[10] != "recording_failed"@[10]);
        assert("recording_completed"@[0] != "ffmpeg_not_found"@[0]);
        assert("recording_completed"@[0] != "mkvmerge_not_found"@[0]);
        assert("recording_completed"@[0] != "shaka_packager_not_found"@[0]);
        assert("recording_completed"@[0] != "mp4decrypt_not_found"@[0]);
        assert("recording_completed"@[0] != "console_redirected"@[0]);
        assert("recording_completed"@[0] != "new_version_found"@[0]);
        assert("recording_completed"@[0] != "live_found"@[0]);
        assert("recording_completed"@[0] != "auto_binary_merge3"@[0]);
        assert("recording_completed"@[0] != "auto_binary_merge6"@[0]);
        assert("recording_completed"@[0] != "write_json"@[0]);
        assert("recording_completed"@[0] != "selected_stream"@[0]);
        assert("recording_completed"@[0] != "streams_info"@[0]);
        assert("recording_completed"@[0] != "task_start_at"@[0]);
        assert("recording_completed"@[0] != "save_name"@[0]);
        assert("recording_failed"@[0] != "ffmpeg_not_found"@[0]);
        assert("recording_failed"@[0] != "mkvmerge_not_found"@[0]);
        assert("recording_failed"@[0] != "shaka_packager_not_found"@[0]);
        assert("recording_failed"@[0] != "mp4decrypt_not_found"@[0]);
        assert("recording_failed"@[0] != "console_redirected"@[0]);
        assert("recording_failed"@[0] != "new_version_found"@[0]);
        assert("recording_failed"@[0] != "live_found"@[0]);
        assert("recording_failed"@[0] != "auto_binary_merge3"@[0]);
        assert("recording_failed"@[0] != "auto_binary_merge6"@[0]);
        assert("recording_failed"@[0] != "write_json"@[0]);
        assert("recording_failed"@[0] != "selected_stream"@[0]);
        assert("recording_failed"@[0] != "streams_info"@[0]);
        assert("recording_failed"@[0] != "task_start_at"@[0]);
        assert("recording_failed"@[0] != "save_name"@[0]);
        assert("ffmpeg_not_found"@[0] != "mkvmerge_not_found"@[0]);
        assert("ffmpeg_not_found"@[0] != "shaka_packager_not_found"@[0]);
        assert("ffmpeg_not_found"@[0] != "mp4decrypt_not_found"@[0]);
        assert("ffmpeg_not_found"@[0] != "console_redirected"@[0]);
        assert("ffmpeg_not_found"@[0] != "new_version_found"@[0]);
        assert("ffmpeg_not_found"@[0] != "live_found"@[0]);
        assert("ffmpeg_not_found"@[0] != "auto_binary_merge3"@[0]);
        assert("ffmpeg_not_found"@[0] != "auto_binary_merge6"@[0]);
        assert("ffmpeg_not_found"@[0] != "write_json"@[0]);
        assert("ffmpeg_not_found"@[0] != "selected_stream"@[0]);
        assert("ffmpeg_not_found"@[0] != "streams_info"@[0]);
        assert("ffmpeg_not_found"@[0] != "task_start_at"@[0]);
        assert("ffmpeg_not_found"@[0] != "save_name"@[0]);
        assert("mkvmerge_not_found"@[0] != "shaka_packager_not_found"@[0]);
        assert("mkvmerge_not_found"@[1] != "mp4decrypt_not_found"@[1]);
        assert("mkvmerge_not_found"@[0] != "console_redirected"@[0]);
        assert("mkvmerge_not_found"@[0] != "new_version_found"@[0]);
        assert("mkvmerge_not_found"@[0] != "live_found"@[0]);
        assert("mkvmerge_not_found"@[0] != "auto_binary_merge3"@[0]);
        assert("mkvmerge_not_found"@[0] != "auto_binary_merge6"@[0]);
        assert("mkvmerge_not_found"@[0] != "write_json"@[0]);
        assert("mkvmerge_not_found"@[0] != "selected_stream"@[0]);
        assert("mkvmerge_not_found"@[0] != "streams_info"@[0]);
        assert("mkvmerge_not_found"@[0] != "task_start_at"@[0]);
        assert("mkvmerge_not_found"@[0] != "save_name"@[0]);
        assert("shaka_packager_not_found"@[0] != "mp4decrypt_not_found"@[0]);
        assert("shaka_packager_not_found"@[0] != "console_redirected"@[0]);
        assert("shaka_packager_not_found"@[0] != "new_version_found"@[0]);
        assert("shaka_packager_not_found"@[0] != "live_found"@[0]);
        assert("shaka_packager_not_found"@[0] != "auto_binary_merge3"@[0]);
        assert("shaka_packager_not_found"@[0] != "auto_binary_merge6"@[0]);
        assert("shaka_packager_not_found"@[0] != "write_json"@[0]);
        assert("shaka_packager_not_found"@[1] != "selected_stream"@[1]);
        assert("shaka_packager_not_found"@[1] != "streams_info"@[1]);
        assert("shaka_packager_not_found"@[0] != "task_start_at"@[0]);
        assert("shaka_packager_not_found"@[1] != "save_name"@[1]);
        assert("mp4decrypt_not_found"@[0] != "console_redirected"@[0]);
        assert("mp4decrypt_not_found"@[0] != "new_version_found"@[0]);
        assert("mp4decrypt_not_found"@[0] != "live_found"@[0]);
        assert("mp4decrypt_not_found"@[0] != "auto_binary_merge3"@[0]);
        assert("mp4decrypt_not_found"@[0] != "auto_binary_merge6"@[0]);
        assert("mp4decrypt_not_found"@[0] != "write_json"@[0]);
        assert("mp4decrypt_not_found"@[0] != "selected_stream"@[0]);
        assert("mp4decrypt_not_found"@[0] != "streams_info"@[0]);
        assert("mp4decrypt_not_found"@[0] != "task_start_at"@[0]);
        assert("mp4decrypt_not_found"@[0] != "save_name"@[0]);
        assert("console_redirected"@[0] != "new_version_found"@[0]);
        assert("console_redirected"@[0] != "live_found"@[0]);
        assert("console_redirected"@[0] != "auto_binary_merge3"@[0]);
        assert("console_redirected"@[0] != "auto_binary_merge6"@[0]);
        assert("console_redirected"@[0] != "write_json"@[0]);
        assert("console_redirected"@[0] != "selected_stream"@[0]);
        assert("console_redirected"@[0] != "streams_info"@[0]);
        assert("console_redirected"@[0] != "task_start_at"@[0]);
        assert("console_redirected"@[0] != "save_name"@[0]);
        assert("new_version_found"@[0] != "live_found"@[0]);
        assert("new_version_found"@[0] != "auto_binary_merge3"@[0]);
        assert("new_version_found"@[0] != "auto_binary_merge6"@[0]);
        assert("new_version_found"@[0] != "write_json"@[0]);
        assert("new_version_found"@[0] != "selected_stream"@[0]);
        assert("new_version_found"@[0] != "streams_info"@[0]);
        assert("new_version_found"@[0] != "task_start_at"@[0]);
        assert("new_version_found"@[0] != "save_name"@[0]);
        assert("live_found"@[0] != "auto_binary_merge3"@[0]);
        assert("live_found"@[0] != "auto_binary_merge6"@[0]);
        assert("live_found"@[0] != "write_json"@[0]);
        assert("live_found"@[0] != "selected_stream"@[0]);
        assert("live_found"@[0] != "streams_info"@[0]);
        assert("live_found"@[0] != "task_start_at"@[0]);
        assert("live_found"@[0] != "save_name"@[0]);
        assert("auto_binary_merge3"@[17] != "auto_binary_merge6"@[17]);
        assert("auto_binary_merge3"@[0] != "write_json"@[0]);
        assert("auto_binary_merge3"@[0] != "selected_stream"@[0]);
        assert("auto_binary_merge3"@[0] != "streams_info"@[0]);
        assert("auto_binary_merge3"@[0] != "task_start_at"@[0]);
        assert("auto_binary_merge3"@[0] != "save_name"@[0]);
        assert("auto_binary_merge6"@[0] != "write_json"@[0]);
        assert("auto_binary_merge6"@[0] != "selected_stream"@[0]);
        assert("auto_binary_merge6"@[0] != "streams_info"@[0]);
        assert("auto_binary_merge6"@[0] != "task_start_at"@[0]);
        assert("auto_binary_merge6"@[0] != "save_name"@[0]);
        assert("write_json"@[0] != "selected_stream"@[0]);
        assert("write_json"@[0] != "streams_info"@[0]);
        assert("write_json"@[0] != "task_start_at"@[0]);
        assert("write_json"@[0] != "save_name"@[0]);
        assert("selected_stream"@[1] != "streams_info"@[1]);
        assert("selected_stream"@[0] != "task_start_at"@[0]);
        assert("selected_stream"@[1] != "save_name"@[1]);
        assert("streams_info"@[0] != "task_start_at"@[0]);
        assert("streams_info"@[1] != "save_name"@[1]);
        assert("task_start_at"@[0] != "save_name"@[0]);
    }
}

/// The text that a table with distinct keys gives for the key of its
/// entry `i` is that entry's text.
proof fn lemma_lookup_entry(table: Seq<(Seq<char>, Seq<char>)>, i: int)
    requires
        0 <= i < table.len(),
        forall|a: int, b: int|
            0 <= a < b < table.len() ==> (#[trigger] table[a]).0 != (#[trigger] table[b]).0,
    ensures
        lookup(table, table[i].0) == Some(table[i].1),
    decreases table.len(),
{
    if i != table.len() - 1 {
        let t = table.drop_last();
        assert(table.last() == table[table.len() - 1]);
        assert(t[i] == table[i]);
        assert forall|a: int, b: int| 0 <= a < b < t.len() implies (#[trigger] t[a]).0 != (
        #[trigger] t[b]).0 by {
            assert(t[a] == table[a] && t[b] == table[b]);
        }
        lemma_lookup_entry(t, i);
    }
}

/// Every key that the English texts have, the simplified and traditional
/// Chinese texts have too, and each of them gives it a text of its own:
/// for every key but the application's name, `I18n::new("zh-CN").get(key)`
/// and `I18n::new("zh-TW").get(key)` differ from `I18n::new("en-US").get(key)`.
pub proof fn lemma_chinese_texts_differ(i: int)
    requires
        0 <= i < en_table().len(),
    ensures
        zh_cn_table().len() == en_table().len(),
        zh_tw_table().len() == en_table().len(),
        lookup(zh_cn_table(), en_table()[i].0) is Some,
        lookup(zh_tw_table(), en_table()[i].0) is Some,
        en_table()[i].0 != "app_name"@ ==> translate(zh_cn_table(), en_table()[i].0) != translate(
            en_table(),
            en_table()[i].0,
        ),
        en_table()[i].0 != "app_name"@ ==> translate(zh_tw_table(), en_table()[i].0) != translate(
            en_table(),
            en_table()[i].0,
        ),
{
    reveal_strlit("app_name");
    reveal_strlit("N_m3u8-RE");
    reveal_strlit("version");
    reveal_strlit("Version");
    reveal_strlit("loading_stream");
    reveal_strlit("Loading stream...");
    reveal_strlit("found_streams");
    reveal_strlit("Found {} streams:");
    reveal_strlit("no_streams_found");
    reveal_strlit("No streams found");
    reveal_strlit("downloading");
    reveal_strlit("Downloading...");
    reveal_strlit("recording");
    reveal_strlit("Recording...");
    reveal_strlit("download_completed");
    reveal_strlit("Download completed!");
    reveal_strlit("download_failed");
    reveal_strlit("Download failed!");
    reveal_strlit("recording_completed");
    reveal_strlit("Recording completed!");
    reveal_strlit("recording_failed");
    reveal_strlit("Recording failed!");
    reveal_strlit("ffmpeg_not_found");
    reveal_strlit("FFmpeg not found");
    reveal_strlit("mkvmerge_not_found");
    reveal_strlit("MKVMerge not found");
    reveal_strlit("shaka_packager_not_found");
    reveal_strlit("Shaka Packager not found");
    reveal_strlit("mp4decrypt_not_found");
    reveal_strlit("mp4decrypt not found");
    reveal_strlit("console_redirected");
    reveal_strlit("Console output is redirected");
    reveal_strlit("new_version_found");
    reveal_strlit("New version found");
    reveal_strlit("live_found");
    reveal_strlit("Live stream found");
    reveal_strlit("auto_binary_merge3");
    reveal_strlit("Unknown encryption method detected, automatically enabling binary merge");
    reveal_strlit("auto_binary_merge6");
    reveal_strlit("MuxAfterDone enabled, automatically enabling binary merge");
    reveal_strlit("write_json");
    reveal_strlit("Writing JSON files");
    reveal_strlit("selected_stream");
    reveal_strlit("Selected streams:");
    reveal_strlit("streams_info");
    reveal_strlit("Stream information: {} total, {} video, {} audio, {} subtitle");
    reveal_strlit("task_start_at");
    reveal_strlit("Task will start at: ");
    reveal_strlit("save_name");
    reveal_strlit("Save name: ");
    reveal_strlit("版本");
    reveal_strlit("加载媒体流...");
    reveal_strlit("找到 {} 个流:");
    reveal_strlit("没有找到可下载的流");
    reveal_strlit("下载中...");
    reveal_strlit("录制中...");
    reveal_strlit("下载完成！");
    reveal_strlit("下载失败！");
    reveal_strlit("录制完成！");
    reveal_strlit("录制失败！");
    reveal_strlit("未找到FFmpeg");
    reveal_strlit("未找到MKVMerge");
    reveal_strlit("未找到Shaka Packager");
    reveal_strlit("未找到mp4decrypt");
    reveal_strlit("控制台输出已重定向");
    reveal_strlit("发现新版本");
    reveal_strlit("发现直播流");
    reveal_strlit("检测到未知的加密方式，自动开启二进制合并");
    reveal_strlit("开启了MuxAfterDone，自动开启二进制合并");
    reveal_strlit("正在写入JSON文件");
    reveal_strlit("已选择的流:");
    reveal_strlit("流信息：共 {} 个，{} 个视频，{} 个音频，{} 个字幕");
    reveal_strlit("任务将在以下时间开始：");
    reveal_strlit("保存名称：");
    reveal_strlit("載入媒體流...");
    reveal_strlit("找到 {} 個流:");
    reveal_strlit("沒有找到可下載的流");
    reveal_strlit("下載中...");
    reveal_strlit("錄製中...");
    reveal_strlit("下載完成！");
    reveal_strlit("下載失敗！");
    reveal_strlit("錄製完成！");
    reveal_strlit("錄製失敗！");
    reveal_strlit("控制台輸出已重新導向");
    reveal_strlit("發現新版本");
    reveal_strlit("發現直播流");
    reveal_strlit("檢測到未知的加密方式，自動開啟二進制合併");
    reveal_strlit("開啟了MuxAfterDone，自動開啟二進制合併");
    reveal_strlit("正在寫入JSON文件");
    reveal_strlit("已選擇的流:");
    reveal_strlit("流資訊：共 {} 個，{} 個視頻，{} 個音頻，{} 個字幕");
    reveal_strlit("任務將在以下時間開始：");
    reveal_strlit("保存名稱：");
    lemma_keys_distinct();
    assert(zh_cn_table()[i].0 == en_table()[i].0);
    assert(zh_tw_table()[i].0 == en_table()[i].0);
    assert forall|a: int, b: int|
        0 <= a < b < zh_cn_table().len() implies (#[trigger] zh_cn_table()[a]).0 != (
        #[trigger] zh_cn_table()[b]).0 by {
        assert(zh_cn_table()[a].0 == en_table()[a].0 && zh_cn_table()[b].0 == en_table()[b].0);
    }
    assert forall|a: int, b: int|
        0 <= a < b < zh_tw_table().len() implies (#[trigger] zh_tw_table()[a]).0 != (
        #[trigger] zh_tw_table()[b]).0 by {
        assert(zh_tw_table()[a].0 == en_table()[a].0 && zh_tw_table()[b].0 == en_table()[b].0);
    }
    if i == 1 {
        assert(en_table()[1].1 == "Version"@ && zh_cn_table()[1].1 == "版本"@ && zh_tw_table()[1].1 == "版本"@);
        assert("版本"@[0] != "Version"@[0]);
        assert("版本"@[0] != "Version"@[0]);
    }
    if i == 2 {
        assert(en_table()[2].1 == "Loading stream..."@ && zh_cn_table()[2].1 == "加载媒体流..."@ && zh_tw_table()[2].1 == "載入媒體流..."@);
        assert("加载媒体流..."@[0] != "Loading stream..."@[0]);
        assert("載入媒體流..."@[0] != "Loading stream..."@[0]);
    }
    if i == 3 {
        assert(en_table()[3].1 == "Found {} streams:"@ && zh_cn_table()[3].1 == "找到 {} 个流:"@ && zh_tw_table()[3].1 == "找到 {} 個流:"@);
        assert("找到 {} 个流:"@[0] != "Found {} streams:"@[0]);
        assert("找到 {} 個流:"@[0] != "Found {} streams:"@[0]);
    }
    if i == 4 {
        assert(en_table()[4].1 == "No streams found"@ && zh_cn_table()[4].1 == "没有找到可下载的流"@ && zh_tw_table()[4].1 == "沒有找到可下載的流"@);
        assert("没有找到可下载的流"@[0] != "No streams found"@[0]);
        assert("沒有找到可下載的流"@[0] != "No streams found"@[0]);
    }
    if i == 5 {
        assert(en_table()[5].1 == "Downloading..."@ && zh_cn_table()[5].1 == "下载中..."@ && zh_tw_table()[5].1 == "下載中..."@);
        assert("下载中..."@[0] != "Downloading..."@[0]);
        assert("下載中..."@[0] != "Downloading..."@[0]);
    }
    if i == 6 {
        assert(en_table()[6].1 == "Recording..."@ && zh_cn_table()[6].1 == "录制中..."@ && zh_tw_table()[6].1 == "錄製中..."@);
        assert("录制中..."@[0] != "Recording..."@[0]);
        assert("錄製中..."@[0] != "Recording..."@[0]);
    }
    if i == 7 {
        assert(en_table()[7].1 == "Download completed!"@ && zh_cn_table()[7].1 == "下载完成！"@ && zh_tw_table()[7].1 == "下載完成！"@);
        assert("下载完成！"@[0] != "Download completed!"@[0]);
        assert("下載完成！"@[0] != "Download completed!"@[0]);
    }
    if i == 8 {
        assert(en_table()[8].1 == "Download failed!"@ && zh_cn_table()[8].1 == "下载失败！"@ && zh_tw_table()[8].1 == "下載失敗！"@);
        assert("下载失败！"@[0] != "Download failed!"@[0]);
        assert("下載失敗！"@[0] != "Download failed!"@[0]);
    }
    if i == 9 {
        assert(en_table()[9].1 == "Recording completed!"@ && zh_cn_table()[9].1 == "录制完成！"@ && zh_tw_table()[9].1 == "錄製完成！"@);
        assert("录制完成！"@[0] != "Recording completed!"@[0]);
        assert("錄製完成！"@[0] != "Recording completed!"@[0]);
    }
    if i == 10 {
        assert(en_table()[10].1 == "Recording failed!"@ && zh_cn_table()[10].1 == "录制失败！"@ && zh_tw_table()[10].1 == "錄製失敗！"@);
        assert("录制失败！"@[0] != "Recording failed!"@[0]);
        assert("錄製失敗！"@[0] != "Recording failed!"@[0]);
    }
    if i == 11 {
        assert(en_table()[11].1 == "FFmpeg not found"@ && zh_cn_table()[11].1 == "未找到FFmpeg"@ && zh_tw_table()[11].1 == "未找到FFmpeg"@);
        assert("未找到FFmpeg"@[0] != "FFmpeg not found"@[0]);
        assert("未找到FFmpeg"@[0] != "FFmpeg not found"@[0]);
    }
    if i == 12 {
        assert(en_table()[12].1 == "MKVMerge not found"@ && zh_cn_table()[12].1 == "未找到MKVMerge"@ && zh_tw_table()[12].1 == "未找到MKVMerge"@);
        assert("未找到MKVMerge"@[0] != "MKVMerge not found"@[0]);
        assert("未找到MKVMerge"@[0] != "MKVMerge not found"@[0]);
    }
    if i == 13 {
        assert(en_table()[13].1 == "Shaka Packager not found"@ && zh_cn_table()[13].1 == "未找到Shaka Packager"@ && zh_tw_table()[13].1 == "未找到Shaka Packager"@);
        assert("未找到Shaka Packager"@[0] != "Shaka Packager not found"@[0]);
        assert("未找到Shaka Packager"@[0] != "Shaka Packager not found"@[0]);
    }
    if i == 14 {
        assert(en_table()[14].1 == "mp4decrypt not found"@ && zh_cn_table()[14].1 == "未找到mp4decrypt"@ && zh_tw_table()[14].1 == "未找到mp4decrypt"@);
        assert("未找到mp4decrypt"@[0] != "mp4decrypt not found"@[0]);
        assert("未找到mp4decrypt"@[0] != "mp4decrypt not found"@[0]);
    }
    if i == 15 {
        assert(en_table()[15].1 == "Console output is redirected"@ && zh_cn_table()[15].1 == "控制台输出已重定向"@ && zh_tw_table()[15].1 == "控制台輸出已重新導向"@);
        assert("控制台输出已重定向"@[0] != "Console output is redirected"@[0]);
        assert("控制台輸出已重新導向"@[0] != "Console output is redirected"@[0]);
    }
    if i == 16 {
        assert(en_table()[16].1 == "New version found"@ && zh_cn_table()[16].1 == "发现新版本"@ && zh_tw_table()[16].1 == "發現新版本"@);
        assert("发现新版本"@[0] != "New version found"@[0]);
        assert("發現新版本"@[0] != "New version found"@[0]);
    }
    if i == 17 {
        assert(en_table()[17].1 == "Live stream found"@ && zh_cn_table()[17].1 == "发现直播流"@ && zh_tw_table()[17].1 == "發現直播流"@);
        assert("发现直播流"@[0] != "Live stream found"@[0]);
        assert("發現直播流"@[0] != "Live stream found"@[0]);
    }
    if i == 18 {
        assert(en_table()[18].1 == "Unknown encryption method detected, automatically enabling binary merge"@ && zh_cn_table()[18].1 == "检测到未知的加密方式，自动开启二进制合并"@ && zh_tw_table()[18].1 == "檢測到未知的加密方式，自動開啟二進制合併"@);
        assert("检测到未知的加密方式，自动开启二进制合并"@[0] != "Unknown encryption method detected, automatically enabling binary merge"@[0]);
        assert("檢測到未知的加密方式，自動開啟二進制合併"@[0] != "Unknown encryption method detected, automatically enabling binary merge"@[0]);
    }
    if i == 19 {
        assert(en_table()[19].1 == "MuxAfterDone enabled, automatically enabling binary merge"@ && zh_cn_table()[19].1 == "开启了MuxAfterDone，自动开启二进制合并"@ && zh_tw_table()[19].1 == "開啟了MuxAfterDone，自動開啟二進制合併"@);
        assert("开启了MuxAfterDone，自动开启二进制合并"@[0] != "MuxAfterDone enabled, automatically enabling binary merge"@[0]);
        assert("開啟了MuxAfterDone，自動開啟二進制合併"@[0] != "MuxAfterDone enabled, automatically enabling binary merge"@[0]);
    }
    if i == 20 {
        assert(en_table()[20].1 == "Writing JSON files"@ && zh_cn_table()[20].1 == "正在写入JSON文件"@ && zh_tw_table()[20].1 == "正在寫入JSON文件"@);
        assert("正在写入JSON文件"@[0] != "Writing JSON files"@[0]);
        assert("正在寫入JSON文件"@[0] != "Writing JSON files"@[0]);
    }
    if i == 21 {
        assert(en_table()[21].1 == "Selected streams:"@ && zh_cn_table()[21].1 == "已选择的流:"@ && zh_tw_table()[21].1 == "已選擇的流:"@);
        assert("已选择的流:"@[0] != "Selected streams:"@[0]);
        assert("已選擇的流:"@[0] != "Selected streams:"@[0]);
    }
    if i == 22 {
        assert(en_table()[22].1 == "Stream information: {} total, {} video, {} audio, {} subtitle"@ && zh_cn_table()[22].1 == "流信息：共 {} 个，{} 个视频，{} 个音频，{} 个字幕"@ && zh_tw_table()[22].1 == "流資訊：共 {} 個，{} 個視頻，{} 個音頻，{} 個字幕"@);
        assert("流信息：共 {} 个，{} 个视频，{} 个音频，{} 个字幕"@[0] != "Stream information: {} total, {} video, {} audio, {} subtitle"@[0]);
        assert("流資訊：共 {} 個，{} 個視頻，{} 個音頻，{} 個字幕"@[0] != "Stream information: {} total, {} video, {} audio, {} subtitle"@[0]);
    }
    if i == 23 {
        assert(en_table()[23].1 == "Task will start at: "@ && zh_cn_table()[23].1 == "任务将在以下时间开始："@ && zh_tw_table()[23].1 == "任務將在以下時間開始："@);
        assert("任务将在以下时间开始："@[0] != "Task will start at: "@[0]);
        assert("任務將在以下時間開始："@[0] != "Task will start at: "@[0]);
    }
    if i == 24 {
        assert(en_table()[24].1 == "Save name: "@ && zh_cn_table()[24].1 == "保存名称："@ && zh_tw_table()[24].1 == "保存名稱："@);
        assert("保存名称："@[0] != "Save name: "@[0]);
        assert("保存名稱："@[0] != "Save name: "@[0]);
    }
    assert(en_table()[0].0 == "app_name"@);
    lemma_lookup_entry(en_table(), i);
    lemma_lookup_entry(zh_cn_table(), i);
    lemma_lookup_entry(zh_tw_table(), i);
}

} // verus!
