use ldtstore_codegen::config::{
    tool_icon_emoji, tool_link_prefix, tool_website_type, MirrorType, TileFont, ToolLinkIcon,
    ToolLinkTitle, ToolLinkTitleType, ToolLinkType,
};

#[test]
fn link_type_names() {
    assert_eq!(ToolLinkType::R2.as_str(), "r2");
    assert_eq!(ToolLinkType::Mirror.as_str(), "mirror");
}

#[test]
fn link_icon_names() {
    assert_eq!(ToolLinkIcon::Link.as_str(), "link");
    assert_eq!(ToolLinkIcon::Download.as_str(), "download");
}

#[test]
fn mirror_state_names() {
    assert_eq!(MirrorType::Active.as_str(), "active");
    assert_eq!(MirrorType::Locked.as_str(), "locked");
    assert_eq!(MirrorType::Synced.as_str(), "synced");
}

#[test]
fn heading_tags() {
    assert_eq!(TileFont::H1.into_tag(), "h1");
    assert_eq!(TileFont::H2.into_tag(), "h2");
    assert_eq!(TileFont::H3.into_tag(), "h3");
    assert_eq!(TileFont::H4.into_tag(), "h4");
    assert_eq!(TileFont::H5.into_tag(), "h5");
}

#[test]
fn website_type_labels() {
    assert_eq!(tool_website_type(ToolLinkTitleType::Official), "ÂÆòÊñπÁΩëÁ´ô");
    assert_eq!(tool_website_type(ToolLinkTitleType::Link), "È¶ñÂèëÈìæÊé•");
    assert_eq!(tool_website_type(ToolLinkTitleType::PageLink), "ÁΩëÈ°µÈìæÊé•");
    assert_eq!(tool_website_type(ToolLinkTitleType::Unofficial), "<b>ÈùûÂÆòÊñπ</b>È°µÈù¢");
    assert_eq!(tool_website_type(ToolLinkTitleType::OfficialLimited), "ÂÆòÊñπÁΩëÁ´ôÔºàÂõΩÂÜÖÊó†Ê≥ïËÆøÈóÆÔºâ");
}

#[test]
fn link_prefixes() {
    assert_eq!(tool_link_prefix(ToolLinkType::R2), "//r.ldtstore.com.cn/r2/");
    assert_eq!(tool_link_prefix(ToolLinkType::Mirror), "{{MIRROR}}");
}

#[test]
fn icon_glyphs() {
    assert_eq!(tool_icon_emoji(ToolLinkIcon::Link), "üîó");
    assert_eq!(tool_icon_emoji(ToolLinkIcon::Download), "üíæ");
}

#[test]
fn classification_numbers() {
    assert_eq!(ToolLinkTitleType::from_number(1), Some(ToolLinkTitleType::Official));
    assert_eq!(ToolLinkTitleType::from_number(2), Some(ToolLinkTitleType::Link));
    assert_eq!(ToolLinkTitleType::from_number(3), Some(ToolLinkTitleType::PageLink));
    assert_eq!(ToolLinkTitleType::from_number(4), Some(ToolLinkTitleType::Unofficial));
    assert_eq!(ToolLinkTitleType::from_number(5), Some(ToolLinkTitleType::OfficialLimited));
    assert_eq!(ToolLinkTitleType::from_number(0), None);
    assert_eq!(ToolLinkTitleType::from_number(6), None);
    assert_eq!(ToolLinkTitleType::from_number(-1), None);
}

#[test]
fn link_title_shows_label_or_text() {
    assert_eq!(ToolLinkTitle::Type(ToolLinkTitleType::Official).text(), "ÂÆòÊñπÁΩëÁ´ô");
    assert_eq!(ToolLinkTitle::Type(ToolLinkTitleType::Unofficial).text(), "<b>ÈùûÂÆòÊñπ</b>È°µÈù¢");
    assert_eq!(ToolLinkTitle::Text("1".to_string()).text(), "1");
    assert_eq!(ToolLinkTitle::Text("<i>own</i> site".to_string()).text(), "<i>own</i> site");
    assert_eq!(
        ToolLinkTitle::Text("x".to_string()).copy(),
        ToolLinkTitle::Text("x".to_string())
    );
}
