use web_host::articles::{
    article_exists, article_path, get_all_articles, render_article, ArticleId, ArticleMetadata,
};
use web_host::client::{
    connection_label, create_request, created_notification, delete_request, deleted_notification,
    error_notification, hide_deleted, list_request, log_entry, response_text, should_create,
    show_created, status_text, ApiRequest, Notification, API_BASE,
};
use web_host::navigation::{
    is_at_bottom, is_at_top, navigate_down, navigate_up, newer, older, on_key, page_label,
    section_for_hash, section_id, section_in_view, section_name, shown_entry, KeyAction,
    EXPERIENCE_SECTION, SECTION_COUNT,
};
use web_host::protocol::BackendEvent;
use web_host::resources::Resource;
use web_host::ui::{
    button_class, dialog_card_class, dialog_card_style, dialog_overlay_class, icon_button_class,
    nav_button_style, toast_class, toast_progress_class, toggle_off_label, toggle_on_label,
    toggle_option_class, toggle_side_class, ButtonSize, ButtonVariant, ComponentCategory,
    DialogType, ToastType,
};

fn resource(id: &str, name: &str) -> Resource {
    Resource {
        id: id.to_string(),
        name: name.to_string(),
        description: None,
        created_at: "1".to_string(),
        updated_at: "1".to_string(),
    }
}

#[test]
fn the_catalogue_lists_three_articles() {
    let articles = get_all_articles();
    assert_eq!(
        articles,
        vec![
            ArticleMetadata {
                slug: "getting-started-with-rust",
                title: "Getting Started with Rust",
                date: "2024-01-15",
                description: "A beginner's guide to the Rust programming language",
            },
            ArticleMetadata {
                slug: "building-web-apps-with-leptos",
                title: "Building Web Apps with Leptos",
                date: "2024-02-20",
                description: "Learn how to build reactive web applications using Leptos",
            },
            ArticleMetadata {
                slug: "understanding-rust-ownership",
                title: "Understanding Rust Ownership",
                date: "2024-03-10",
                description: "Deep dive into Rust's ownership system and borrowing rules",
            },
        ]
    );
}

#[test]
fn exactly_the_listed_slugs_exist() {
    for article in get_all_articles() {
        assert!(article_exists(article.slug));
        assert!(render_article(article.slug).is_some());
    }
    for slug in ["", "rust", "getting-started-with-rust ", "Getting-Started-With-Rust"] {
        assert!(!article_exists(slug));
        assert_eq!(render_article(slug), None);
    }
    assert_eq!(render_article("getting-started-with-rust"), Some(ArticleId::GettingStartedWithRust));
    assert_eq!(
        render_article("building-web-apps-with-leptos"),
        Some(ArticleId::BuildingWebAppsWithLeptos)
    );
    assert_eq!(
        render_article("understanding-rust-ownership"),
        Some(ArticleId::UnderstandingRustOwnership)
    );
    assert_eq!(article_path("getting-started-with-rust"), "/articles/getting-started-with-rust");
}

#[test]
fn sections_have_identifiers_and_names() {
    assert_eq!(SECTION_COUNT, 4);
    assert_eq!(EXPERIENCE_SECTION, 2);
    let ids: Vec<&str> = (0..SECTION_COUNT).map(section_id).collect();
    assert_eq!(ids, vec!["hero", "about", "experience", "projects"]);
    let names: Vec<&str> = (0..SECTION_COUNT).map(section_name).collect();
    assert_eq!(names, vec!["Home", "About", "Experience", "Projects"]);
}

#[test]
fn address_selects_the_section() {
    assert_eq!(section_for_hash("", 3), 0);
    assert_eq!(section_for_hash("#about", 0), 1);
    assert_eq!(section_for_hash("#experience", 0), 2);
    assert_eq!(section_for_hash("#projects", 1), 3);
    assert_eq!(section_for_hash("#hero", 2), 0);
    assert_eq!(section_for_hash("##about", 0), 1);
    assert_eq!(section_for_hash("about", 0), 1);
    assert_eq!(section_for_hash("#nowhere", 2), 2);
    assert_eq!(section_for_hash("#", 2), 2);
}

#[test]
fn buttons_move_one_section_and_stop_at_the_ends() {
    assert_eq!(navigate_up(0), 0);
    assert_eq!(navigate_up(1), 0);
    assert_eq!(navigate_up(3), 2);
    assert_eq!(navigate_down(0), 1);
    assert_eq!(navigate_down(2), 3);
    assert_eq!(navigate_down(3), 3);
    assert_eq!(navigate_down(usize::MAX), 3);
    assert!(is_at_top(0));
    assert!(!is_at_top(1));
    assert!(is_at_bottom(3));
    assert!(!is_at_bottom(2));
}

#[test]
fn keys_scroll_or_turn_pages() {
    assert_eq!(on_key("ArrowUp", 2), KeyAction::Scroll(1));
    assert_eq!(on_key("ArrowUp", 0), KeyAction::Scroll(0));
    assert_eq!(on_key("ArrowDown", 2), KeyAction::Scroll(3));
    assert_eq!(on_key("ArrowDown", 3), KeyAction::Scroll(3));
    assert_eq!(on_key("ArrowLeft", 2), KeyAction::Press(0));
    assert_eq!(on_key("ArrowRight", 2), KeyAction::Press(1));
    assert_eq!(on_key("ArrowLeft", 1), KeyAction::Pass);
    assert_eq!(on_key("ArrowRight", 3), KeyAction::Pass);
    assert_eq!(on_key("Enter", 2), KeyAction::Pass);
    assert_eq!(on_key("", 0), KeyAction::Pass);
}

#[test]
fn first_section_across_the_line_is_in_view() {
    assert_eq!(section_in_view(&vec![false, true, true, false]), Some(1));
    assert_eq!(section_in_view(&vec![true, false, false, false]), Some(0));
    assert_eq!(section_in_view(&vec![false, false, false, false]), None);
    assert_eq!(section_in_view(&Vec::new()), None);
}

#[test]
fn pages_of_experience() {
    assert_eq!(older(0), 0);
    assert_eq!(older(2), 1);
    assert_eq!(newer(0, 3), 1);
    assert_eq!(newer(2, 3), 2);
    assert_eq!(newer(7, 3), 2);
    assert_eq!(shown_entry(0, 3), 2);
    assert_eq!(shown_entry(2, 3), 0);
    assert_eq!(page_label(0, 3), "1 of 3");
    assert_eq!(page_label(2, 3), "3 of 3");
    assert_eq!(page_label(9, 12), "10 of 12");
}

#[test]
fn defaults_of_the_components() {
    assert_eq!(ButtonVariant::default(), ButtonVariant::Primary);
    assert_eq!(ButtonSize::default(), ButtonSize::Medium);
    assert_eq!(DialogType::default(), DialogType::Info);
    assert_eq!(ToastType::default(), ToastType::Success);
    assert_eq!(ComponentCategory::default(), ComponentCategory::Icons);
}

#[test]
fn button_classes_by_size_and_kind() {
    assert_eq!(ButtonSize::Small.padding_class(), "py-4 px-6");
    assert_eq!(ButtonSize::Medium.padding_class(), "py-6 px-9");
    assert_eq!(ButtonSize::Large.padding_class(), "py-8 px-12");
    assert_eq!(ButtonSize::XLarge.padding_class(), "py-10 px-16");
    assert_eq!(ButtonSize::Small.text_class(), "text-2xl");
    assert_eq!(ButtonSize::Medium.text_class(), "text-4xl");
    assert_eq!(ButtonSize::Large.text_class(), "text-5xl");
    assert_eq!(ButtonSize::XLarge.text_class(), "text-6xl");
    assert_eq!(ButtonSize::Small.icon_padding_class(), "p-4");
    assert_eq!(ButtonSize::XLarge.icon_padding_class(), "p-10");
    assert_eq!(ButtonVariant::Primary.base_class(), "bg-[#4EC6F0] text-[#191C1D] border-[#4EC6F0]");
    assert_eq!(ButtonVariant::Secondary.base_class(), "bg-[#F6F7F5] text-[#191C1D] border-[#F6F7F5]");
    assert_eq!(ButtonVariant::Outline.base_class(), "bg-transparent text-[#F6F7F5] border-[#F6F7F5]");
    assert_eq!(ButtonVariant::Danger.base_class(), "bg-[#FF5449] text-[#191C1D] border-[#FF5449]");
    assert_eq!(ButtonVariant::Warning.base_class(), "bg-[#FF8D44] text-[#191C1D] border-[#FF8D44]");
    assert_eq!(
        ButtonVariant::Borderless.base_class(),
        "bg-transparent text-[#F6F7F5] border-transparent"
    );
    for filled in [
        ButtonVariant::Primary,
        ButtonVariant::Secondary,
        ButtonVariant::Danger,
        ButtonVariant::Warning,
    ] {
        assert_eq!(
            filled.disabled_class(),
            "disabled:bg-[#444748] disabled:text-[#5C5F5F] disabled:border-[#444748]"
        );
    }
    for hollow in [ButtonVariant::Outline, ButtonVariant::Borderless] {
        assert_eq!(hollow.disabled_class(), "disabled:text-[#5C5F5F] disabled:border-[#5C5F5F]");
    }
}

#[test]
fn button_class_joins_the_parts_with_blanks() {
    assert_eq!(
        button_class(ButtonVariant::Primary, ButtonSize::Medium, false, false, ""),
        "flex items-center justify-center border-2 transition-all bg-[#4EC6F0] text-[#191C1D] border-[#4EC6F0] disabled:bg-[#444748] disabled:text-[#5C5F5F] disabled:border-[#444748] py-6 px-9 text-4xl rounded-2xl  "
    );
    assert_eq!(
        button_class(ButtonVariant::Outline, ButtonSize::Small, true, true, "mt-2"),
        "flex items-center justify-center border-2 transition-all bg-transparent text-[#F6F7F5] border-[#F6F7F5] disabled:text-[#5C5F5F] disabled:border-[#5C5F5F] py-4 px-6 text-2xl rounded-full w-full mt-2"
    );
    assert_eq!(
        icon_button_class(ButtonVariant::Danger, ButtonSize::Large, "x"),
        "flex items-center justify-center rounded-full border-2 transition-all bg-[#FF5449] text-[#191C1D] border-[#FF5449] disabled:bg-[#444748] disabled:text-[#5C5F5F] disabled:border-[#444748] p-8 x"
    );
    assert_eq!(nav_button_style(""), "background-color: #191C1D");
    assert_eq!(nav_button_style("#FFFFFF"), "background-color: #FFFFFF");
}

#[test]
fn dialog_looks() {
    assert_eq!(DialogType::Info.background_color(), "#323837");
    assert_eq!(DialogType::Warning.background_color(), "#FF8D44");
    assert_eq!(DialogType::Danger.background_color(), "#FF5449");
    assert_eq!(dialog_card_style(DialogType::Danger), "background-color: #FF5449;");
    let fixed = "fixed top-0 left-0 z-50 flex flex-col justify-end h-screen w-screen bg-black bg-opacity-60 transition-all ease-in duration-150";
    assert_eq!(
        dialog_overlay_class(true, true),
        format!("{fixed} opacity-100 backdrop-blur-md delay-500")
    );
    assert_eq!(dialog_overlay_class(true, false), format!("{fixed} opacity-100 backdrop-blur-md "));
    assert_eq!(
        dialog_overlay_class(false, true),
        format!("{fixed} opacity-0 pointer-events-none delay-200")
    );
    let card = "relative w-full flex flex-col items-center rounded-t-3xl transition-all ease-in duration-300";
    assert_eq!(dialog_card_class(false, true, false), format!("{card} delay-100 bottom-0 py-16"));
    assert_eq!(dialog_card_class(true, true, true), format!("{card} -bottom-[80%] py-0"));
    assert_eq!(dialog_card_class(false, false, false), format!("{card} -bottom-[80%] py-16"));
}

#[test]
fn toast_looks() {
    assert_eq!(ToastType::Success.background_color(), "#3DFFC5");
    assert_eq!(ToastType::Warning.background_color(), "#FAC800");
    assert_eq!(ToastType::Info.background_color(), "#F6F7F5");
    assert_eq!(ToastType::Error.background_color(), "#FF5449");
    for kind in [ToastType::Success, ToastType::Warning, ToastType::Info, ToastType::Error] {
        assert_eq!(kind.text_color(), "#191C1D");
    }
    assert_eq!(
        toast_class(true),
        "fixed ease-linear w-[92%] left-8 bottom-8 duration-100 opacity-100 pointer-events-auto flex z-30 rounded-2xl overflow-hidden"
    );
    assert_eq!(
        toast_class(false),
        "fixed ease-linear w-[92%] left-8 bottom-8 duration-150 opacity-0 pointer-events-none flex z-30 rounded-2xl overflow-hidden"
    );
    assert_eq!(
        toast_progress_class(true),
        "bg-[#00A47C] absolute h-4 bottom-0 delay-150 w-[100%] ease-linear duration-[2850ms]"
    );
    assert_eq!(toast_progress_class(false), "bg-[#00A47C] absolute h-4 bottom-0 delay-150 w-[0%]");
}

#[test]
fn toggle_looks() {
    assert_eq!(toggle_on_label(""), "Enabled");
    assert_eq!(toggle_on_label("Yes"), "Yes");
    assert_eq!(toggle_off_label(""), "Disabled");
    assert_eq!(toggle_off_label("No"), "No");
    assert_eq!(
        toggle_side_class(true),
        "w-full flex items-center justify-center text-4xl border-2 rounded-[70px] py-6 px-9 border-[#F6F7F5] bg-[#F6F7F5] disabled:bg-[#5C5F5F] disabled:text-[#2D3131] disabled:border-[#5C5F5F]"
    );
    assert_eq!(
        toggle_side_class(false),
        "w-full flex items-center justify-center text-4xl border-2 rounded-[70px] py-6 px-9 border-[#F6F7F5] text-[#F6F7F5] disabled:bg-[#2D3131] disabled:text-[#5C5F5F] disabled:border-[#5C5F5F]"
    );
    assert_eq!(toggle_option_class("a", "a"), "flex-1 text-4xl mr-4 p-8 rounded-full bg-[#F6F7F5]");
    assert_eq!(
        toggle_option_class("a", "b"),
        "flex-1 text-4xl mr-4 p-8 rounded-full border border-[#C4C7C7] text-[#F6F7F5]"
    );
}

#[test]
fn gallery_groups() {
    assert_eq!(
        ComponentCategory::all(),
        vec![
            ComponentCategory::Icons,
            ComponentCategory::Buttons,
            ComponentCategory::Dialog,
            ComponentCategory::Toast,
            ComponentCategory::Toggle,
        ]
    );
    let labels: Vec<&str> = ComponentCategory::all().iter().map(|c| c.label()).collect();
    assert_eq!(labels, vec!["Icons", "Buttons", "Dialog", "Toast", "Toggle"]);
    assert_eq!(
        ComponentCategory::Toast.entry_class(ComponentCategory::Toast),
        "w-full text-left px-4 py-3 rounded-lg mb-1 text-lg transition-colors bg-[#4EC6F0] text-[#191C1D]"
    );
    assert_eq!(
        ComponentCategory::Toast.entry_class(ComponentCategory::Icons),
        "w-full text-left px-4 py-3 rounded-lg mb-1 text-lg transition-colors text-[#F6F7F5] hover:bg-[#444748]"
    );
}

#[test]
fn requests_of_the_page() {
    assert_eq!(API_BASE, "http://localhost:3000");
    assert_eq!(
        list_request(),
        ApiRequest {
            url: "http://localhost:3000/api/v1/resources".to_string(),
            method: "GET",
            body: None
        }
    );
    assert_eq!(
        create_request("{\"name\":\"x\"}".to_string()),
        ApiRequest {
            url: "http://localhost:3000/api/v1/resources".to_string(),
            method: "POST",
            body: Some("{\"name\":\"x\"}".to_string())
        }
    );
    assert_eq!(
        delete_request("6553f1005"),
        ApiRequest {
            url: "http://localhost:3000/api/v1/resources/6553f1005".to_string(),
            method: "DELETE",
            body: None
        }
    );
}

#[test]
fn responses_are_read_as_text_or_failure() {
    assert_eq!(response_text(true, 200, Some("body".to_string())), Ok("body".to_string()));
    assert_eq!(response_text(false, 404, Some("body".to_string())), Err("HTTP 404".to_string()));
    assert_eq!(response_text(false, 500, None), Err("HTTP 500".to_string()));
    assert_eq!(response_text(true, 200, None), Err("Response not a string".to_string()));
}

#[test]
fn what_the_page_shows() {
    assert!(!should_create(""));
    assert!(should_create("x"));
    assert_eq!(
        created_notification("thing"),
        Notification { message: "Created thing".to_string(), kind: ToastType::Success }
    );
    assert_eq!(
        deleted_notification("thing"),
        Notification { message: "Deleted thing".to_string(), kind: ToastType::Success }
    );
    assert_eq!(
        error_notification("HTTP 500"),
        Notification { message: "Error: HTTP 500".to_string(), kind: ToastType::Error }
    );
    assert_eq!(status_text(""), "Not loaded");
    assert_eq!(status_text("Loaded"), "Loaded");
    assert_eq!(connection_label(true), "Connected");
    assert_eq!(connection_label(false), "Disconnected");
    assert_eq!(log_entry(BackendEvent::Connected), "Backend connected");
    assert_eq!(
        log_entry(BackendEvent::RandomNumber { request_id: 3, value: 4_000_000_000 }),
        "Request #3: 4000000000"
    );
}

#[test]
fn shown_list_follows_creations_and_deletions() {
    let mut list = vec![resource("1", "one"), resource("2", "two")];
    show_created(&mut list, resource("3", "three"));
    assert_eq!(list, vec![resource("3", "three"), resource("1", "one"), resource("2", "two")]);
    hide_deleted(&mut list, "1");
    assert_eq!(list, vec![resource("3", "three"), resource("2", "two")]);
    hide_deleted(&mut list, "missing");
    assert_eq!(list.len(), 2);
    list.push(resource("3", "again"));
    hide_deleted(&mut list, "3");
    assert_eq!(list, vec![resource("2", "two")]);
    hide_deleted(&mut list, "2");
    assert!(list.is_empty());
    hide_deleted(&mut list, "2");
    assert!(list.is_empty());
}
