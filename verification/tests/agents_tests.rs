use rob::agents::{agent_for_system_prompt, builtin_agents, main_agent, resolve_agent};

#[test]
fn reader_agent_has_own_prompt_and_tool_subset() {
    let agent = resolve_agent(Some("reader")).unwrap();
    let tool_names = agent.tool_names();

    assert!(agent.system_prompt.contains("ROB Reader"));
    assert!(tool_names.contains(&"read_file"));
    assert!(!tool_names.contains(&"shell_exec"));
}

#[test]
fn smart_home_agent_has_dedicated_prompt_and_tools() {
    let agent = resolve_agent(Some("smart_home")).unwrap();

    assert!(agent.system_prompt.contains("智能家居控制 agent"));
    assert!(agent.system_prompt.contains("严禁把 K 值除以 10"));
    assert!(agent
        .system_prompt
        .contains("smart_home_control_light_temperature"));
    assert!(agent
        .tool_names()
        .contains(&"smart_home_control_light_temperature"));
    assert!(agent.tool_names().contains(&"smart_home_control_light"));
    assert!(!agent.tool_names().contains(&"shell_exec"));
}

#[test]
fn focused_digital_life_agents_have_domain_prompts_and_tools() {
    let file_agent = resolve_agent(Some("digital_files")).unwrap();
    assert!(file_agent.system_prompt.contains("文件智能管家"));
    assert_eq!(file_agent.tool_names(), ["digital_file_manager"]);
    assert!(!file_agent.tool_names().contains(&"shell_exec"));

    let document_agent = resolve_agent(Some("digital_documents")).unwrap();
    assert!(document_agent.system_prompt.contains("文档智能助手"));
    assert_eq!(
        document_agent.tool_names(),
        [
            "digital_document_assistant",
            "digital_document_workspace",
            "digital_pdf_document",
            "digital_word_document",
            "digital_ppt_generation",
            "digital_spreadsheet",
            "digital_ocr",
            "digital_structured_extract",
            "digital_text_assistant",
        ]
    );
    assert!(document_agent
        .tool_names()
        .contains(&"digital_pdf_document"));
    assert!(document_agent
        .tool_names()
        .contains(&"digital_text_assistant"));
    assert!(!document_agent
        .tool_names()
        .contains(&"digital_note_knowledge"));
    assert!(!document_agent.tool_names().contains(&"shell_exec"));

    let knowledge_agent = resolve_agent(Some("digital_knowledge")).unwrap();
    assert!(knowledge_agent.system_prompt.contains("知识学习助手"));
    assert_eq!(
        knowledge_agent.tool_names(),
        ["digital_note_knowledge", "digital_text_assistant"]
    );
    assert!(knowledge_agent
        .tool_names()
        .contains(&"digital_note_knowledge"));
    assert!(!knowledge_agent
        .tool_names()
        .contains(&"digital_pdf_document"));
    assert!(!knowledge_agent.tool_names().contains(&"shell_exec"));

    let security_agent = resolve_agent(Some("digital_security")).unwrap();
    assert!(security_agent.system_prompt.contains("监控安防管家"));
    assert_eq!(
        security_agent.tool_names(),
        [
            "digital_security_event_query",
            "digital_security_person_type_query",
            "digital_security_vehicle_entry_query",
            "digital_security_vehicle_presence_query",
            "digital_security_plate_query",
            "digital_security_pet_activity_query",
            "digital_security_pet_presence_query",
            "digital_security_pet_behavior_query",
            "digital_security_camera_control",
            "digital_security_identity_recognition",
            "digital_security_person_history",
            "digital_security_identity_history",
            "digital_security_current_subject",
        ]
    );
    assert!(security_agent
        .tool_names()
        .contains(&"digital_security_event_query"));
    assert!(security_agent
        .tool_names()
        .contains(&"digital_security_camera_control"));
    assert!(!security_agent
        .tool_names()
        .contains(&"digital_media_control"));
    assert!(!security_agent.tool_names().contains(&"shell_exec"));

    let photo_agent = resolve_agent(Some("digital_photos")).unwrap();
    assert!(photo_agent.system_prompt.contains("智能相册专家"));
    assert_eq!(
        photo_agent.tool_names(),
        [
            "digital_photo_album",
            "digital_photo_album_search",
            "digital_photo_metadata",
            "digital_photo_library",
        ]
    );
    assert!(photo_agent.tool_names().contains(&"digital_photo_album"));
    assert!(photo_agent.tool_names().contains(&"digital_photo_metadata"));
    assert!(!photo_agent.tool_names().contains(&"digital_file_manager"));
    assert!(!photo_agent.tool_names().contains(&"shell_exec"));

    let media_agent = resolve_agent(Some("digital_media")).unwrap();
    assert!(media_agent.system_prompt.contains("娱乐影音大咖"));
    assert_eq!(
        media_agent.tool_names(),
        [
            "digital_media_subtitle",
            "digital_video_playback",
            "digital_video_recommendation",
            "digital_video_genre_playback",
            "digital_video_region_playback",
            "digital_video_collection_playback",
            "digital_video_episode_control",
            "digital_media_transport_control",
            "digital_media_control",
            "digital_music_playback",
            "digital_music_recommendation",
            "digital_music_genre_playback",
            "digital_music_language_playback",
            "digital_music_collection_playback",
            "digital_music_track_control",
        ]
    );
    assert!(media_agent
        .tool_names()
        .contains(&"digital_video_genre_playback"));
    assert!(media_agent
        .tool_names()
        .contains(&"digital_music_language_playback"));
    assert!(media_agent
        .tool_names()
        .contains(&"digital_media_transport_control"));
    assert!(!media_agent
        .tool_names()
        .contains(&"digital_security_event_query"));
    assert!(!media_agent.tool_names().contains(&"shell_exec"));
}

#[test]
fn legacy_digital_life_agent_keeps_existing_prompt_and_tools() {
    let agent = resolve_agent(Some("digital_life")).unwrap();

    assert!(agent.system_prompt.contains("个人数字生活专家 agent"));
    assert!(agent.system_prompt.contains("digital_document_assistant"));
    assert!(agent
        .system_prompt
        .contains("digital_security_camera_control"));
    assert!(agent.tool_names().contains(&"digital_file_manager"));
    assert!(agent.tool_names().contains(&"digital_document_assistant"));
    assert!(agent.tool_names().contains(&"digital_photo_album"));
    assert!(agent.tool_names().contains(&"digital_security_event_query"));
    assert!(agent
        .tool_names()
        .contains(&"digital_security_identity_recognition"));
    assert!(agent
        .tool_names()
        .contains(&"digital_security_camera_control"));
    assert!(agent.tool_names().contains(&"digital_media_subtitle"));
    assert!(agent.tool_names().contains(&"digital_video_playback"));
    assert!(agent.tool_names().contains(&"digital_video_genre_playback"));
    assert!(agent
        .tool_names()
        .contains(&"digital_video_region_playback"));
    assert!(agent.tool_names().contains(&"digital_music_playback"));
    assert!(agent.tool_names().contains(&"digital_music_genre_playback"));
    assert!(agent
        .tool_names()
        .contains(&"digital_music_language_playback"));
    assert!(agent
        .tool_names()
        .contains(&"digital_media_transport_control"));
    assert_eq!(agent.tool_names().len(), 16);
    assert!(!agent.tool_names().contains(&"digital_media_control"));
    assert!(!agent.tool_names().contains(&"digital_invoice_extract"));
    assert!(!agent.tool_names().contains(&"digital_contract_extract"));
    assert!(!agent.tool_names().contains(&"digital_receipt_extract"));
    assert!(agent.tool_names().contains(&"digital_note_knowledge"));
    assert!(!agent.tool_names().contains(&"shell_exec"));
}

#[test]
fn main_agent_has_existing_prompt_and_tools() {
    let agent = resolve_agent(Some("main")).unwrap();
    let tools = agent.tools().unwrap();
    let tool_names = tools
        .iter()
        .map(|tool| tool.function.name.as_str())
        .collect::<Vec<_>>();

    assert!(agent.system_prompt.contains("You are ROB"));
    assert_eq!(
        tool_names,
        vec!["pwd", "list_dir", "read_file", "search_text", "shell_exec"]
    );
}

#[test]
fn default_agent_is_main() {
    let agent = resolve_agent(None).unwrap();
    assert_eq!(agent.name, "main");
    assert_eq!(main_agent().name, "main");
}

#[test]
fn unknown_agent_lists_available_agents() {
    let error = resolve_agent(Some("nobody")).unwrap_err();
    assert_eq!(
        error.message(),
        "agent `nobody` was not found; available agents: main, reader, smart_home, digital_files, digital_documents, digital_knowledge, digital_security, digital_photos, digital_media, digital_life"
    );
}

#[test]
fn builtin_agent_names_are_distinct() {
    let agents = builtin_agents();
    assert_eq!(agents.len(), 10);
    for (i, a) in agents.iter().enumerate() {
        for b in agents.iter().skip(i + 1) {
            assert_ne!(a.name, b.name);
        }
    }
}

#[test]
fn agent_is_found_from_its_system_prompt() {
    let reader = resolve_agent(Some("reader")).unwrap();
    assert_eq!(agent_for_system_prompt(Some(reader.system_prompt)).name, "reader");
    assert_eq!(agent_for_system_prompt(Some("custom prompt")).name, "main");
    assert_eq!(agent_for_system_prompt(None).name, "main");
}

#[test]
fn agent_tools_come_in_agent_order() {
    let reader = resolve_agent(Some("reader")).unwrap();
    let tools = reader.tools().unwrap();
    let names: Vec<&str> = tools.iter().map(|t| t.function.name.as_str()).collect();
    assert_eq!(names, vec!["pwd", "list_dir", "read_file", "search_text"]);
    let documents = resolve_agent(Some("digital_documents")).unwrap();
    assert_eq!(
        documents.tools().unwrap_err().to_string(),
        "unknown tool `digital_document_assistant` in agent definition"
    );
}

#[test]
fn builtin_agents_list_distinct_tools_and_only_main_runs_shell() {
    for agent in builtin_agents() {
        let names = agent.tool_names();
        for (i, a) in names.iter().enumerate() {
            for b in &names[i + 1..] {
                assert_ne!(a, b);
            }
        }
        if agent.name != "main" {
            assert!(!names.contains(&"shell_exec"));
        }
    }
}

#[test]
fn every_builtin_agent_is_found_from_its_prompt() {
    for agent in builtin_agents() {
        assert_eq!(agent_for_system_prompt(Some(agent.system_prompt)).name, agent.name);
    }
}
