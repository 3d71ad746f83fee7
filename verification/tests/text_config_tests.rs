use navidrome_htpc::config::{app_cache_dir, config_file_in, join_path_exec, AuthMethod, Config, ReplayGainMode};
use navidrome_htpc::sort::stable_sort;
use navidrome_htpc::text::{
    chars_eq, chars_le, chars_of, concat3, decimal_string, has_two_bytes, lowercase_chars, same_text, starts_with,
};
use navidrome_htpc::ui::artist_list::ArtistAlbumCountOrder;
use navidrome_htpc::subsonic::models::Artist;

#[test]
fn decimal_strings() {
    assert_eq!(decimal_string(0), "0");
    assert_eq!(decimal_string(7), "7");
    assert_eq!(decimal_string(1234567890), "1234567890");
    assert_eq!(decimal_string(u64::MAX), "18446744073709551615");
}

#[test]
fn lowercase_and_comparisons() {
    assert_eq!(lowercase_chars(&"ÀBc".to_string()), vec!['à', 'b', 'c']);
    assert!(chars_le(&chars_of("abc"), &chars_of("abd")));
    assert!(chars_le(&chars_of("ab"), &chars_of("abc")));
    assert!(!chars_le(&chars_of("b"), &chars_of("abc")));
    assert!(chars_eq(&chars_of("xy"), &chars_of("xy")));
    assert!(!chars_eq(&chars_of("xy"), &chars_of("xz")));
}

#[test]
fn byte_length_and_prefixes() {
    assert!(!has_two_bytes(""));
    assert!(!has_two_bytes("a"));
    assert!(has_two_bytes("ü"));
    assert!(has_two_bytes("ab"));
    assert!(starts_with("https://x", "https://"));
    assert!(!starts_with("http", "https://"));
    assert_eq!(concat3("a", "-", "b"), "a-b");
    assert!(same_text("end-file", "end-file"));
    assert!(!same_text("end-file", "end-files"));
}

#[test]
fn paths_join_like_unix() {
    assert_eq!(join_path_exec("/home/u/.cache", "navidrome-htpc"), "/home/u/.cache/navidrome-htpc");
    assert_eq!(join_path_exec("/home/u/.cache/", "navidrome-htpc"), "/home/u/.cache/navidrome-htpc");
    assert_eq!(join_path_exec("", "x"), "x");
    assert_eq!(app_cache_dir(Some("/c".to_string())), "/c/navidrome-htpc");
    assert_eq!(app_cache_dir(None), "~/.cache/navidrome-htpc");
    assert_eq!(config_file_in(Some("/etc/xdg".to_string())).unwrap(), "/etc/xdg/navidrome-htpc/config.toml");
    assert!(config_file_in(None).is_none());
}

#[test]
fn default_config_values() {
    let c = Config::default();
    assert_eq!(c.audio.device, "auto");
    assert!(c.audio.exclusive);
    assert!(c.audio.gapless);
    assert_eq!(c.audio.replaygain, ReplayGainMode::Album);
    assert_eq!(c.audio.max_bitrate, 0);
    assert_eq!(c.display.scale_percent, 150);
    assert_eq!(c.display.theme, "dark");
    assert_eq!(c.server.auth_method, AuthMethod::Token);
    assert_eq!(c.cache.cover_art_size, 300);
    assert!(!c.wizard.completed);
    assert!(c.cache.dir.ends_with("navidrome-htpc"));
    let d = Config::with_cache_dir("/x".to_string());
    assert_eq!(d.cache.dir, "/x");
    if let Some(p) = Config::config_path() {
        assert!(p.ends_with("navidrome-htpc/config.toml"));
    }
}

#[test]
fn stable_sort_keeps_ties_in_order() {
    let v = vec![
        Artist { id: "a".to_string(), album_count: 1, ..Default::default() },
        Artist { id: "b".to_string(), album_count: 3, ..Default::default() },
        Artist { id: "c".to_string(), album_count: 1, ..Default::default() },
        Artist { id: "d".to_string(), album_count: 3, ..Default::default() },
    ];
    let r = stable_sort(&ArtistAlbumCountOrder, v);
    let ids: Vec<&str> = r.iter().map(|a| a.id.as_str()).collect();
    assert_eq!(ids, vec!["b", "d", "a", "c"]);
}
