use vstd::prelude::*;

use crate::text::{concat_str, join_seq, lemma_join_push, str_eq};

verus! {

broadcast use vstd::string::group_string_axioms;

/// The name of the default agent.
pub const MAIN_AGENT_NAME: &'static str = "main";

/// The system prompt of the default Linux agent.
pub const MAIN_AGENT_PROMPT: &'static str = "You are ROB, a Linux-native CLI agent migrated from OpenOmniBot concepts. Use tools when they help inspect the local Linux environment. Keep answers concise. When using shell_exec, pass a command and argv array; never assume shell expansion.";

/// The system prompt of the read-only inspection agent.
pub const READER_AGENT_PROMPT: &'static str = "You are ROB Reader, a read-only Linux inspection agent. Use read-only tools to inspect files, directories, and text. Do not attempt to execute shell commands.";

/// The system prompt of the smart-home control agent.
pub const SMART_HOME_AGENT_PROMPT: &'static str = "你是 ROB Smart Home，一个智能家居控制 agent。你的任务是把用户的自然语言指令解析成明确、可执行的智能家居工具调用。优先使用智能家居专用工具，不要使用 Linux shell 工具。当用户要控制设备时，提取楼层、房间、设备名称、动作和值；用户未说明楼层或房间时不要编造，可省略对应字段。如果用户原话中出现楼层、房间或设备名称/别名，必须原样写入对应字段，不要省略，不要改成更泛化的名称。当用户说“全屋”时，把 room 设置为“全屋”。默认调节步长必须显式写入工具参数：扬声器音量调大/调小必须填 delta_percent=10，灯光亮度调大/调小必须填 delta_percent=20，灯光色温调冷/调暖必须填 delta_kelvin=500。静音必须调用 smart_home_control_speaker，action=mute，并显式填写 volume_percent=0。音量/亮度/窗帘开合度中的“一半”表示 50%。灯光色调映射：暖光/暖色调为 3000K，中性光/自然光为 4000K，白光/冷光/冷色调为 6000K。色温字段必须填写完整 K 数值：1000K 写 1000，1200K 写 1200，3000K 写 3000，4000K 写 4000，6000K 写 6000；严禁省略末尾 0，严禁把 K 值除以 10。凡是用户要求调节色温、设置色温、调成暖光/中性光/自然光/白光/冷光，必须优先调用 smart_home_control_light_temperature。“调冷一点/调白一点/色温调高/提高色温/增加色温”是 increase_color_temperature，默认 delta_kelvin=500；“调暖一点/调黄一点/色温调低/降低色温/减少色温”是 decrease_color_temperature，默认 delta_kelvin=500。颜色映射：红色=(255,0,0)，橙色=(255,165,0)，黄色=(255,255,0)，绿色=(0,255,0)，青色=(0,255,255)，蓝色=(0,0,255)，紫色=(128,0,128)。插座、智能插座、计量插座、智能插头、插头、墙壁插座都属于 device_category=outlet；一路开关、二路开关、三路开关、单开、双开、三开、墙壁开关、无线开关、通断器都属于 device_category=wall_switch。打开/开开/接通/通电/按亮/弄亮是 turn_on；关闭/关掉/断开/断电/按灭/弄灭是 turn_off；不要把关闭理解为 stop。如果用户同时给出多个独立控制目标，可以发起多个独立工具调用。如果缺少执行所必需的信息且无法合理省略，先用简短中文追问。工具调用后，用简洁中文确认已提交的控制意图。";

/// The system prompt of the broad digital-life agent.
pub const DIGITAL_LIFE_AGENT_PROMPT: &'static str = "你是 ROB Digital Life，一个个人数字生活专家 agent。将用户关于文件、文档、笔记、安防、相册照片、影音的请求解析成一个最匹配的专用工具调用；不要使用 Linux shell 工具。工具路由：文件管理用 digital_file_manager；摘要、文档元信息、翻译、OCR、写作辅助、结构化提取用 digital_document_assistant；笔记标签/关联/检索用 digital_note_knowledge；安防事件用 digital_security_event_query，身份出现判断用 digital_security_identity_recognition，摄像头控制用 digital_security_camera_control；相册查询/创建用 digital_photo_album，单张照片元信息用 digital_photo_metadata；字幕用 digital_media_subtitle；影视类型/语言地区点播必须用对应窄工具，其余影视用 digital_video_playback；音乐类型/语言点播必须用对应窄工具，其余音乐用 digital_music_playback；当前播放暂停/继续只用 digital_media_transport_control。同一请求通常只调用一个工具；除非用户明确给出多个独立任务，不要拆成多次工具调用。用户原话中的路径、文件名、照片 ID、相册名、影片名、歌名、歌手、导演、演员、镜头/区域、人物、标签、主题、关键词、相对时间必须原样写入对应槽位，不要泛化、翻译或补全。相对时间写入 time_query；安防事件里门口/客厅/院子/车库/走廊等位置词写入 camera_name，不写 area；全局事件查询填 camera_name=全屋。安防边界：人员/行为/车辆/车牌/包裹/宠物/野生动物/烟火/声音都属于事件查询；含徘徊/跌倒/翻越/入水/摔跤用 human_behavior；宠物跑出/翻越/入水/打架/跌倒用 pet_behavior，去哪/活动/几次用 pet_activity，在不在/有没有用 pet_presence；爸爸、妈妈、张三等熟人或陌生人是否出现属于身份识别；隐私模式、抓拍、音量、对讲、布防/撤防属于摄像头控制。例：门口有人吗 => camera_name=门口；今天门口有人徘徊吗 => action=human_behavior,camera_name=门口。影音边界：影视和音乐分开；只有没有标题、人物、类型、语言、地区、片单、歌单等限制时才用推荐类 action。来点/来部/放点/推荐若带类型、语言、地区、歌手、导演、年代，必须用对应受限 action；同时有人物和类型/年代/语言/歌名时用 combined action。片单/歌单/收藏/最近播放按领域选择，暂停/继续当前播放不要理解为最近播放。例：来部喜剧片 => digital_video_genre_playback；来点流行 => digital_music_genre_playback。“这个文件”“这张照片”“这份 PDF/docx/xlsx”等指代只有在上下文能确定目标时才使用；上下文缺少目标路径或对象 ID 时，先简短追问。普通闲聊或不属于本 agent 能力范围时直接简短回答。工具返回 mock payload 时，只说明已提交或查到的意图，不要声称真实后端已完成不可验证的操作。";

/// The system prompt of the file-management agent.
pub const DIGITAL_FILES_AGENT_PROMPT: &'static str = "你是 ROB 文件智能管家，一个专注本地文件管理的 agent。只处理文件和目录相关请求，包括查看属性、列目录、统计目录、移动/复制单个文件、重命名、添加/删除/查询文件标签；不要使用 Linux shell 工具。文件管理请求一律使用 digital_file_manager。用户原话中的路径、文件名、目标目录、新文件名、标签名必须原样写入对应字段，不要泛化、翻译或补全。如果用户说“这个文件”“这个目录”等指代，只有上下文能确定目标路径时才使用；无法确定时用简短中文追问。同一请求通常只调用一次工具；只有用户明确给出多个独立文件任务时才发起多个独立调用。工具返回 mock payload 时，只说明已提交或查到的意图，不要声称真实后端已完成不可验证的操作。";

/// The system prompt of the document agent.
pub const DIGITAL_DOCUMENTS_AGENT_PROMPT: &'static str = "你是 ROB 文档智能助手，一个专注文档处理、OCR、结构化提取和短文本写作的 agent。将用户关于 PDF、Word、PPT、表格、图片 OCR、扫描件、票据/发票/合同字段提取、短文本总结/翻译/润色/改写/扩写/压缩的请求解析成最匹配的文档工具调用；不要使用 Linux shell 工具。工具路由：PDF 加密/拆页/合并/旋转/水印/表单/元信息用 digital_pdf_document；Word 创建/替换/批注/目录/元信息用 digital_word_document；PPT 生成用 digital_ppt_generation；表格公式列/CSV 转 xlsx/筛选/新建用 digital_spreadsheet；图片或扫描件文字识别用 digital_ocr；发票/票据/合同等字段提取用 digital_structured_extract；短文本总结、翻译、润色、改写、扩写、压缩用 digital_text_assistant；无法确定细分格式但仍是文档工作流时可用 digital_document_assistant 或 digital_document_workspace。用户原话中的文件路径、页码范围、密码、水印文字、字段名、标题、大纲、公式、筛选条件、目标语言和输出路径必须原样写入对应槽位。“这个文档”“这份 PDF/docx/xlsx/图片”等指代只有上下文能确定目标文件时才使用；缺少必要路径、页码范围、密码或字段时，先简短追问。工具返回 mock payload 时，只说明已提交或查到的意图，不要声称真实后端已完成不可验证的操作。";

/// The system prompt of the notes and learning agent.
pub const DIGITAL_KNOWLEDGE_AGENT_PROMPT: &'static str = "你是 ROB 知识学习助手，一个专注笔记、知识库、学习材料整理和简短学习文本处理的 agent。将用户关于笔记打标签、关联笔记、新建主题、关键词检索、笔记问答，以及学习文本总结/翻译/改写/扩写/压缩的请求解析成最匹配的工具调用；不要使用 Linux shell 工具。工具路由：笔记标签、笔记关联、主题创建、关键词检索、基于笔记的问答用 digital_note_knowledge；短学习文本的总结、翻译、润色、改写、扩写、压缩用 digital_text_assistant。用户原话中的笔记路径、笔记 ID、主题名、标签名、关键词、问题和待处理文本必须原样写入对应槽位，不要替换成更泛化的词。如果用户问“我有没有写过/学过/整理过某主题”，优先用 digital_note_knowledge 的检索或问答动作；如果只是让你处理一段直接给出的短文本，用 digital_text_assistant。工具返回 mock payload 时，只说明已提交或查到的意图，不要声称真实知识库已有不可验证内容。";

/// The system prompt of the home-security agent.
pub const DIGITAL_SECURITY_AGENT_PROMPT: &'static str = "你是 ROB 监控安防管家，一个专注家庭摄像头、监控事件、身份识别和摄像头控制的 agent。将用户关于人员/行为/车辆/车牌/包裹/宠物/野生动物/烟火/声音事件、已知人或陌生人出现、当前画面主体识别、隐私模式、抓拍、音量、对讲、布防/撤防的请求解析成最匹配的安防工具调用；不要使用 Linux shell 工具。工具路由：人员、行为、车辆、车牌、包裹、宠物、野生动物、烟火、玻璃破碎、咳嗽、哭声等事件优先用 digital_security_event_query；已知人物或陌生人是否出现用 digital_security_identity_recognition，历史人物/身份类别查询可用 digital_security_person_history 或 digital_security_identity_history，当前门口/镜头是谁用 digital_security_current_subject；隐私模式、抓拍、音量、对讲、布防/撤防用 digital_security_camera_control。窄事件工具仅在其 schema 更准确匹配用户意图时使用。用户原话中的门口、客厅、院子、车库、走廊等位置词优先写入 camera_name；全局事件查询填 camera_name=全屋；时间表达必须原样写入 time_query，当前状态未说明时间时填“现在”。不要把安防位置写成不存在于工具 schema 的字段；不要把“继续播放”等影音意图误判为安防。工具返回 mock payload 时，只说明已提交或查到的意图，不要声称真实摄像头后端已完成不可验证操作。";

/// The system prompt of the photo-album agent.
pub const DIGITAL_PHOTOS_AGENT_PROMPT: &'static str = "你是 ROB 智能相册专家，一个专注相册、照片检索和照片元信息的 agent。将用户关于相册列表、共享相册、人物相册、物体/场景相册、创建相册、照片在哪个相册、单张照片拍摄时间/地点/相机/EXIF 的请求解析成最匹配的相册工具调用；不要使用 Linux shell 工具。工具路由：相册列表、人物相册、物体/场景相册、新建相册用 digital_photo_album；共享相册、按相册名搜索、查询照片在哪个相册用 digital_photo_album_search；单张照片拍摄时间、地点、相机、EXIF 或完整元信息用 digital_photo_metadata；兼容旧的混合相册查询可用 digital_photo_library。用户原话中的相册名、人物名、物体/场景名、照片 ID、照片路径和照片自然语言描述必须原样写入对应槽位。“这张照片”只有上下文能确定 photo_id 或 photo_path 时才使用；无法确定时先简短追问。工具返回 mock payload 时，只说明已提交或查到的意图，不要声称真实相册后端已有不可验证结果。";

/// The system prompt of the video and music agent.
pub const DIGITAL_MEDIA_AGENT_PROMPT: &'static str = "你是 ROB 娱乐影音大咖，一个专注影视、音乐、字幕和播放控制的 agent。将用户关于影视点播/推荐、音乐点播/推荐、片单/歌单/收藏/最近播放、选集/切歌、字幕搜索下载、投屏、音轨/字幕切换、播放进度、暂停/继续当前播放的请求解析成最匹配的影音工具调用；不要使用 Linux shell 工具。工具路由：影视类型点播必须用 digital_video_genre_playback，影视语言/地区点播必须用 digital_video_region_playback，普通影视标题/导演/演员/年代/组合条件用 digital_video_playback，影视片单/最近播放/收藏用 digital_video_collection_playback，选集用 digital_video_episode_control；音乐类型点播必须用 digital_music_genre_playback，音乐语言点播必须用 digital_music_language_playback，普通歌曲/歌手/专辑/年代/组合条件用 digital_music_playback，歌单/最近播放/收藏用 digital_music_collection_playback，切歌/上一首/再听一遍用 digital_music_track_control；当前播放暂停/继续只用 digital_media_transport_control；字幕搜索/下载挂载用 digital_media_subtitle；投屏、播放进度、音轨切换等跨媒体控制可用 digital_media_control。影视和音乐必须分开判断；只有没有标题、人物、类型、语言、地区、片单、歌单等限制时才使用泛推荐。来点/来部/放点/推荐若带类型、语言、地区、歌手、导演、年代，必须使用对应受限工具；同时有人物和类型/年代/语言/歌名时用 combined action。用户原话中的影片名、剧名、歌名、歌手、导演、演员、类型、语言、地区、片单/歌单名、集数、字幕版本、目标设备必须原样写入对应槽位。工具返回 mock payload 时，只说明已提交或查到的意图，不要声称真实影音后端已完成不可验证操作。";

/// A built-in agent: its name, what it is for, its system prompt and the
/// tools it may call.
#[derive(Debug)]
pub struct AgentDefinition {
    pub name: &'static str,
    pub description: &'static str,
    pub system_prompt: &'static str,
    pub tool_names: Vec<&'static str>,
}

/// An agent as text.
pub struct AgentView {
    pub name: Seq<char>,
    pub description: Seq<char>,
    pub system_prompt: Seq<char>,
    pub tool_names: Seq<Seq<char>>,
}

/// The texts of a sequence of string slices.
pub open spec fn strs_view(s: Seq<&str>) -> Seq<Seq<char>> {
    s.map_values(|t: &str| t@)
}

impl View for AgentDefinition {
    type V = AgentView;

    open spec fn view(&self) -> AgentView {
        AgentView {
            name: self.name@,
            description: self.description@,
            system_prompt: self.system_prompt@,
            tool_names: strs_view(self.tool_names@),
        }
    }
}

/// The views of a sequence of agents.
pub open spec fn agents_view(agents: Seq<AgentDefinition>) -> Seq<AgentView> {
    agents.map_values(|a: AgentDefinition| a@)
}

fn clone_names(names: &Vec<&'static str>) -> (r: Vec<&'static str>)
    ensures
        r@ == names@,
{
    let mut out: Vec<&'static str> = Vec::new();
    let mut i: usize = 0;
    while i < names.len()
        invariant
            i <= names.len(),
            out@ == names@.take(i as int),
        decreases names.len() - i,
    {
        out.push(names[i]);
        proof {
            assert(names@.take(i + 1) =~= names@.take(i as int).push(names@[i as int]));
        }
        i = i + 1;
    }
    proof {
        assert(names@.take(i as int) =~= names@);
    }
    out
}

impl Clone for AgentDefinition {
    fn clone(&self) -> (r: Self)
        ensures
            r@ == self@,
    {
        AgentDefinition {
            name: self.name,
            description: self.description,
            system_prompt: self.system_prompt,
            tool_names: clone_names(&self.tool_names),
        }
    }
}

impl AgentDefinition {
    /// The names of the tools this agent may call.
    pub fn tool_names(&self) -> (r: &[&'static str])
        ensures
            strs_view(r@) == self@.tool_names,
    {
        self.tool_names.as_slice()
    }
}

/// The built-in `main` agent as text.
pub open spec fn main_agent_spec() -> AgentView {
    AgentView {
        name: "main"@,
        description: "Default Linux agent with the full built-in tool set."@,
        system_prompt: MAIN_AGENT_PROMPT@,
        tool_names: seq!["pwd"@, "list_dir"@, "read_file"@, "search_text"@, "shell_exec"@],
    }
}

/// The built-in `main` agent.
pub fn main_agent() -> (r: AgentDefinition)
    ensures
        r@ == main_agent_spec(),
{
    let r = AgentDefinition {
        name: "main",
        description: "Default Linux agent with the full built-in tool set.",
        system_prompt: MAIN_AGENT_PROMPT,
        tool_names: vec!["pwd", "list_dir", "read_file", "search_text", "shell_exec"],
    };
    proof {
        assert(strs_view(r.tool_names@) =~= seq!["pwd"@, "list_dir"@, "read_file"@, "search_text"@, "shell_exec"@]);
    }
    r
}

/// The built-in `reader` agent as text.
pub open spec fn reader_agent_spec() -> AgentView {
    AgentView {
        name: "reader"@,
        description: "Read-only inspection agent without shell execution."@,
        system_prompt: READER_AGENT_PROMPT@,
        tool_names: seq!["pwd"@, "list_dir"@, "read_file"@, "search_text"@],
    }
}

/// The built-in `reader` agent.
fn reader_agent() -> (r: AgentDefinition)
    ensures
        r@ == reader_agent_spec(),
{
    let r = AgentDefinition {
        name: "reader",
        description: "Read-only inspection agent without shell execution.",
        system_prompt: READER_AGENT_PROMPT,
        tool_names: vec!["pwd", "list_dir", "read_file", "search_text"],
    };
    proof {
        assert(strs_view(r.tool_names@) =~= seq!["pwd"@, "list_dir"@, "read_file"@, "search_text"@]);
    }
    r
}

/// The built-in `smart_home` agent as text.
pub open spec fn smart_home_agent_spec() -> AgentView {
    AgentView {
        name: "smart_home"@,
        description: "Smart home control agent for lights, curtains, speakers, outlets, switches, and scenes."@,
        system_prompt: SMART_HOME_AGENT_PROMPT@,
        tool_names: seq!["smart_home_control_speaker"@, "smart_home_control_light_temperature"@, "smart_home_control_light"@, "smart_home_control_curtain"@, "smart_home_control_power"@, "smart_home_control_scene"@],
    }
}

/// The built-in `smart_home` agent.
fn smart_home_agent() -> (r: AgentDefinition)
    ensures
        r@ == smart_home_agent_spec(),
{
    let r = AgentDefinition {
        name: "smart_home",
        description: "Smart home control agent for lights, curtains, speakers, outlets, switches, and scenes.",
        system_prompt: SMART_HOME_AGENT_PROMPT,
        tool_names: vec!["smart_home_control_speaker", "smart_home_control_light_temperature", "smart_home_control_light", "smart_home_control_curtain", "smart_home_control_power", "smart_home_control_scene"],
    };
    proof {
        assert(strs_view(r.tool_names@) =~= seq!["smart_home_control_speaker"@, "smart_home_control_light_temperature"@, "smart_home_control_light"@, "smart_home_control_curtain"@, "smart_home_control_power"@, "smart_home_control_scene"@]);
    }
    r
}

/// The built-in `digital_files` agent as text.
pub open spec fn digital_files_agent_spec() -> AgentView {
    AgentView {
        name: "digital_files"@,
        description: "文件智能管家：focused digital-life agent for file and directory management."@,
        system_prompt: DIGITAL_FILES_AGENT_PROMPT@,
        tool_names: seq!["digital_file_manager"@],
    }
}

/// The built-in `digital_files` agent.
fn digital_files_agent() -> (r: AgentDefinition)
    ensures
        r@ == digital_files_agent_spec(),
{
    let r = AgentDefinition {
        name: "digital_files",
        description: "文件智能管家：focused digital-life agent for file and directory management.",
        system_prompt: DIGITAL_FILES_AGENT_PROMPT,
        tool_names: vec!["digital_file_manager"],
    };
    proof {
        assert(strs_view(r.tool_names@) =~= seq!["digital_file_manager"@]);
    }
    r
}

/// The built-in `digital_documents` agent as text.
pub open spec fn digital_documents_agent_spec() -> AgentView {
    AgentView {
        name: "digital_documents"@,
        description: "文档智能助手：focused digital-life agent for documents, OCR, extraction, spreadsheets, PPT, and short text."@,
        system_prompt: DIGITAL_DOCUMENTS_AGENT_PROMPT@,
        tool_names: seq!["digital_document_assistant"@, "digital_document_workspace"@, "digital_pdf_document"@, "digital_word_document"@, "digital_ppt_generation"@, "digital_spreadsheet"@, "digital_ocr"@, "digital_structured_extract"@, "digital_text_assistant"@],
    }
}

/// The built-in `digital_documents` agent.
fn digital_documents_agent() -> (r: AgentDefinition)
    ensures
        r@ == digital_documents_agent_spec(),
{
    let r = AgentDefinition {
        name: "digital_documents",
        description: "文档智能助手：focused digital-life agent for documents, OCR, extraction, spreadsheets, PPT, and short text.",
        system_prompt: DIGITAL_DOCUMENTS_AGENT_PROMPT,
        tool_names: vec!["digital_document_assistant", "digital_document_workspace", "digital_pdf_document", "digital_word_document", "digital_ppt_generation", "digital_spreadsheet", "digital_ocr", "digital_structured_extract", "digital_text_assistant"],
    };
    proof {
        assert(strs_view(r.tool_names@) =~= seq!["digital_document_assistant"@, "digital_document_workspace"@, "digital_pdf_document"@, "digital_word_document"@, "digital_ppt_generation"@, "digital_spreadsheet"@, "digital_ocr"@, "digital_structured_extract"@, "digital_text_assistant"@]);
    }
    r
}

/// The built-in `digital_knowledge` agent as text.
pub open spec fn digital_knowledge_agent_spec() -> AgentView {
    AgentView {
        name: "digital_knowledge"@,
        description: "知识学习助手：focused digital-life agent for notes, knowledge search, learning QA, and study text."@,
        system_prompt: DIGITAL_KNOWLEDGE_AGENT_PROMPT@,
        tool_names: seq!["digital_note_knowledge"@, "digital_text_assistant"@],
    }
}

/// The built-in `digital_knowledge` agent.
fn digital_knowledge_agent() -> (r: AgentDefinition)
    ensures
        r@ == digital_knowledge_agent_spec(),
{
    let r = AgentDefinition {
        name: "digital_knowledge",
        description: "知识学习助手：focused digital-life agent for notes, knowledge search, learning QA, and study text.",
        system_prompt: DIGITAL_KNOWLEDGE_AGENT_PROMPT,
        tool_names: vec!["digital_note_knowledge", "digital_text_assistant"],
    };
    proof {
        assert(strs_view(r.tool_names@) =~= seq!["digital_note_knowledge"@, "digital_text_assistant"@]);
    }
    r
}

/// The built-in `digital_security` agent as text.
pub open spec fn digital_security_agent_spec() -> AgentView {
    AgentView {
        name: "digital_security"@,
        description: "监控安防管家：focused digital-life agent for camera events, identity recognition, and security controls."@,
        system_prompt: DIGITAL_SECURITY_AGENT_PROMPT@,
        tool_names: seq!["digital_security_event_query"@, "digital_security_person_type_query"@, "digital_security_vehicle_entry_query"@, "digital_security_vehicle_presence_query"@, "digital_security_plate_query"@, "digital_security_pet_activity_query"@, "digital_security_pet_presence_query"@, "digital_security_pet_behavior_query"@, "digital_security_camera_control"@, "digital_security_identity_recognition"@, "digital_security_person_history"@, "digital_security_identity_history"@, "digital_security_current_subject"@],
    }
}

/// The built-in `digital_security` agent.
fn digital_security_agent() -> (r: AgentDefinition)
    ensures
        r@ == digital_security_agent_spec(),
{
    let r = AgentDefinition {
        name: "digital_security",
        description: "监控安防管家：focused digital-life agent for camera events, identity recognition, and security controls.",
        system_prompt: DIGITAL_SECURITY_AGENT_PROMPT,
        tool_names: vec!["digital_security_event_query", "digital_security_person_type_query", "digital_security_vehicle_entry_query", "digital_security_vehicle_presence_query", "digital_security_plate_query", "digital_security_pet_activity_query", "digital_security_pet_presence_query", "digital_security_pet_behavior_query", "digital_security_camera_control", "digital_security_identity_recognition", "digital_security_person_history", "digital_security_identity_history", "digital_security_current_subject"],
    };
    proof {
        assert(strs_view(r.tool_names@) =~= seq!["digital_security_event_query"@, "digital_security_person_type_query"@, "digital_security_vehicle_entry_query"@, "digital_security_vehicle_presence_query"@, "digital_security_plate_query"@, "digital_security_pet_activity_query"@, "digital_security_pet_presence_query"@, "digital_security_pet_behavior_query"@, "digital_security_camera_control"@, "digital_security_identity_recognition"@, "digital_security_person_history"@, "digital_security_identity_history"@, "digital_security_current_subject"@]);
    }
    r
}

/// The built-in `digital_photos` agent as text.
pub open spec fn digital_photos_agent_spec() -> AgentView {
    AgentView {
        name: "digital_photos"@,
        description: "智能相册专家：focused digital-life agent for albums, photo search, and photo metadata."@,
        system_prompt: DIGITAL_PHOTOS_AGENT_PROMPT@,
        tool_names: seq!["digital_photo_album"@, "digital_photo_album_search"@, "digital_photo_metadata"@, "digital_photo_library"@],
    }
}

/// The built-in `digital_photos` agent.
fn digital_photos_agent() -> (r: AgentDefinition)
    ensures
        r@ == digital_photos_agent_spec(),
{
    let r = AgentDefinition {
        name: "digital_photos",
        description: "智能相册专家：focused digital-life agent for albums, photo search, and photo metadata.",
        system_prompt: DIGITAL_PHOTOS_AGENT_PROMPT,
        tool_names: vec!["digital_photo_album", "digital_photo_album_search", "digital_photo_metadata", "digital_photo_library"],
    };
    proof {
        assert(strs_view(r.tool_names@) =~= seq!["digital_photo_album"@, "digital_photo_album_search"@, "digital_photo_metadata"@, "digital_photo_library"@]);
    }
    r
}

/// The built-in `digital_media` agent as text.
pub open spec fn digital_media_agent_spec() -> AgentView {
    AgentView {
        name: "digital_media"@,
        description: "娱乐影音大咖：focused digital-life agent for video, music, subtitles, and playback controls."@,
        system_prompt: DIGITAL_MEDIA_AGENT_PROMPT@,
        tool_names: seq!["digital_media_subtitle"@, "digital_video_playback"@, "digital_video_recommendation"@, "digital_video_genre_playback"@, "digital_video_region_playback"@, "digital_video_collection_playback"@, "digital_video_episode_control"@, "digital_media_transport_control"@, "digital_media_control"@, "digital_music_playback"@, "digital_music_recommendation"@, "digital_music_genre_playback"@, "digital_music_language_playback"@, "digital_music_collection_playback"@, "digital_music_track_control"@],
    }
}

/// The built-in `digital_media` agent.
fn digital_media_agent() -> (r: AgentDefinition)
    ensures
        r@ == digital_media_agent_spec(),
{
    let r = AgentDefinition {
        name: "digital_media",
        description: "娱乐影音大咖：focused digital-life agent for video, music, subtitles, and playback controls.",
        system_prompt: DIGITAL_MEDIA_AGENT_PROMPT,
        tool_names: vec!["digital_media_subtitle", "digital_video_playback", "digital_video_recommendation", "digital_video_genre_playback", "digital_video_region_playback", "digital_video_collection_playback", "digital_video_episode_control", "digital_media_transport_control", "digital_media_control", "digital_music_playback", "digital_music_recommendation", "digital_music_genre_playback", "digital_music_language_playback", "digital_music_collection_playback", "digital_music_track_control"],
    };
    proof {
        assert(strs_view(r.tool_names@) =~= seq!["digital_media_subtitle"@, "digital_video_playback"@, "digital_video_recommendation"@, "digital_video_genre_playback"@, "digital_video_region_playback"@, "digital_video_collection_playback"@, "digital_video_episode_control"@, "digital_media_transport_control"@, "digital_media_control"@, "digital_music_playback"@, "digital_music_recommendation"@, "digital_music_genre_playback"@, "digital_music_language_playback"@, "digital_music_collection_playback"@, "digital_music_track_control"@]);
    }
    r
}

/// The built-in `digital_life` agent as text.
pub open spec fn digital_life_agent_spec() -> AgentView {
    AgentView {
        name: "digital_life"@,
        description: "Legacy broad digital-life agent. Prefer the six focused digital_* agents for new workflows."@,
        system_prompt: DIGITAL_LIFE_AGENT_PROMPT@,
        tool_names: seq!["digital_file_manager"@, "digital_document_assistant"@, "digital_note_knowledge"@, "digital_security_event_query"@, "digital_security_identity_recognition"@, "digital_security_camera_control"@, "digital_photo_album"@, "digital_photo_metadata"@, "digital_media_subtitle"@, "digital_video_genre_playback"@, "digital_video_region_playback"@, "digital_video_playback"@, "digital_media_transport_control"@, "digital_music_genre_playback"@, "digital_music_language_playback"@, "digital_music_playback"@],
    }
}

/// The built-in `digital_life` agent.
fn digital_life_agent() -> (r: AgentDefinition)
    ensures
        r@ == digital_life_agent_spec(),
{
    let r = AgentDefinition {
        name: "digital_life",
        description: "Legacy broad digital-life agent. Prefer the six focused digital_* agents for new workflows.",
        system_prompt: DIGITAL_LIFE_AGENT_PROMPT,
        tool_names: vec!["digital_file_manager", "digital_document_assistant", "digital_note_knowledge", "digital_security_event_query", "digital_security_identity_recognition", "digital_security_camera_control", "digital_photo_album", "digital_photo_metadata", "digital_media_subtitle", "digital_video_genre_playback", "digital_video_region_playback", "digital_video_playback", "digital_media_transport_control", "digital_music_genre_playback", "digital_music_language_playback", "digital_music_playback"],
    };
    proof {
        assert(strs_view(r.tool_names@) =~= seq!["digital_file_manager"@, "digital_document_assistant"@, "digital_note_knowledge"@, "digital_security_event_query"@, "digital_security_identity_recognition"@, "digital_security_camera_control"@, "digital_photo_album"@, "digital_photo_metadata"@, "digital_media_subtitle"@, "digital_video_genre_playback"@, "digital_video_region_playback"@, "digital_video_playback"@, "digital_media_transport_control"@, "digital_music_genre_playback"@, "digital_music_language_playback"@, "digital_music_playback"@]);
    }
    r
}

/// All built-in agents, in the order they are listed.
pub open spec fn builtin_agents_spec() -> Seq<AgentView> {
    seq![main_agent_spec(), reader_agent_spec(), smart_home_agent_spec(), digital_files_agent_spec(), digital_documents_agent_spec(), digital_knowledge_agent_spec(), digital_security_agent_spec(), digital_photos_agent_spec(), digital_media_agent_spec(), digital_life_agent_spec()]
}

/// All built-in agents: the default one first, then the reader, the
/// smart-home agent, the six focused digital-life agents and the broad one.
pub fn builtin_agents() -> (r: Vec<AgentDefinition>)
    ensures
        agents_view(r@) == builtin_agents_spec(),
{
    let r = vec![main_agent(), reader_agent(), smart_home_agent(), digital_files_agent(), digital_documents_agent(), digital_knowledge_agent(), digital_security_agent(), digital_photos_agent(), digital_media_agent(), digital_life_agent()];
    proof {
        assert(agents_view(r@) =~= builtin_agents_spec());
    }
    r
}


/// Why an agent could not be chosen.
#[derive(Debug)]
pub enum AgentError {
    /// No built-in agent has this name.
    NotFound(String),
}

/// The position of the first agent named `name`; the length when none is.
pub open spec fn name_index(agents: Seq<AgentView>, name: Seq<char>) -> int
    decreases agents.len(),
{
    if agents.len() == 0 {
        0
    } else if agents[0].name == name {
        0
    } else {
        1 + name_index(agents.drop_first(), name)
    }
}

/// The position of the first agent with this system prompt; the length when
/// none has it.
pub open spec fn prompt_index(agents: Seq<AgentView>, prompt: Seq<char>) -> int
    decreases agents.len(),
{
    if agents.len() == 0 {
        0
    } else if agents[0].system_prompt == prompt {
        0
    } else {
        1 + prompt_index(agents.drop_first(), prompt)
    }
}

pub(crate) proof fn lemma_name_index(agents: Seq<AgentView>, name: Seq<char>)
    ensures
        0 <= name_index(agents, name) <= agents.len(),
        name_index(agents, name) < agents.len() ==> agents[name_index(agents, name)].name == name,
        forall|j: int| 0 <= j < name_index(agents, name) ==> #[trigger] agents[j].name != name,
    decreases agents.len(),
{
    if agents.len() > 0 && agents[0].name != name {
        lemma_name_index(agents.drop_first(), name);
        assert forall|j: int| 0 <= j < name_index(agents, name) implies #[trigger] agents[j].name
            != name by {
            if j > 0 {
                assert(agents[j] == agents.drop_first()[j - 1]);
            }
        }
    }
}

proof fn lemma_prompt_index(agents: Seq<AgentView>, prompt: Seq<char>)
    ensures
        0 <= prompt_index(agents, prompt) <= agents.len(),
        prompt_index(agents, prompt) < agents.len() ==> agents[prompt_index(
            agents,
            prompt,
        )].system_prompt == prompt,
        forall|j: int|
            0 <= j < prompt_index(agents, prompt) ==> #[trigger] agents[j].system_prompt != prompt,
    decreases agents.len(),
{
    if agents.len() > 0 && agents[0].system_prompt != prompt {
        lemma_prompt_index(agents.drop_first(), prompt);
        assert forall|j: int| 0 <= j < prompt_index(agents, prompt) implies #[trigger] agents[j].system_prompt
            != prompt by {
            if j > 0 {
                assert(agents[j] == agents.drop_first()[j - 1]);
            }
        }
    }
}

/// The names of the built-in agents, in order.
pub open spec fn builtin_names() -> Seq<Seq<char>> {
    builtin_agents_spec().map_values(|a: AgentView| a.name)
}

/// The agent requested by name; the default agent when no name is given.
pub open spec fn requested_name(name: Option<&str>) -> Seq<char> {
    match name {
        Some(n) => n@,
        None => "main"@,
    }
}

/// The built-in agent with the given name (the default one when none is
/// given); an error naming it when there is no such agent.
pub fn resolve_agent(name: Option<&str>) -> (r: Result<AgentDefinition, AgentError>)
    ensures
        ({
            let n = requested_name(name);
            let i = name_index(builtin_agents_spec(), n);
            match r {
                Ok(a) => i < builtin_agents_spec().len() && a@ == builtin_agents_spec()[i],
                Err(e) => i == builtin_agents_spec().len() && (e matches AgentError::NotFound(
                    s,
                ) && s@ == n),
            }
        }),
{
    let wanted = match name {
        Some(n) => n,
        None => MAIN_AGENT_NAME,
    };
    let agents = builtin_agents();
    let ghost specs = builtin_agents_spec();
    proof {
        lemma_name_index(specs, wanted@);
    }
    let mut i: usize = 0;
    while i < agents.len()
        invariant
            i <= agents.len(),
            agents_view(agents@) == specs,
            specs == builtin_agents_spec(),
            wanted@ == requested_name(name),
            0 <= name_index(specs, wanted@) <= specs.len(),
            name_index(specs, wanted@) < specs.len() ==> specs[name_index(specs, wanted@)].name
                == wanted@,
            forall|j: int| 0 <= j < name_index(specs, wanted@) ==> #[trigger] specs[j].name != wanted@,
            i <= name_index(specs, wanted@),
        decreases agents.len() - i,
    {
        assert(agents@[i as int]@ == specs[i as int]);
        if str_eq(agents[i].name, wanted) {
            proof {
                assert(specs[i as int].name == wanted@);
                assert(i == name_index(specs, wanted@));
            }
            return Ok(agents[i].clone());
        }
        i = i + 1;
    }
    Err(AgentError::NotFound(crate::text::owned(wanted)))
}

/// The built-in agent whose system prompt is `prompt`; the default agent
/// when no prompt is given or none matches.
pub fn agent_for_system_prompt(prompt: Option<&str>) -> (r: AgentDefinition)
    ensures
        match prompt {
            None => r@ == main_agent_spec(),
            Some(p) => {
                let i = prompt_index(builtin_agents_spec(), p@);
                if i < builtin_agents_spec().len() {
                    r@ == builtin_agents_spec()[i]
                } else {
                    r@ == main_agent_spec()
                }
            },
        },
{
    let p = match prompt {
        Some(p) => p,
        None => {
            return main_agent();
        },
    };
    let agents = builtin_agents();
    let ghost specs = builtin_agents_spec();
    proof {
        lemma_prompt_index(specs, p@);
    }
    let mut i: usize = 0;
    while i < agents.len()
        invariant
            i <= agents.len(),
            agents_view(agents@) == specs,
            specs == builtin_agents_spec(),
            prompt == Some(p),
            0 <= prompt_index(specs, p@) <= specs.len(),
            prompt_index(specs, p@) < specs.len() ==> specs[prompt_index(specs, p@)].system_prompt
                == p@,
            forall|j: int|
                0 <= j < prompt_index(specs, p@) ==> #[trigger] specs[j].system_prompt != p@,
            i <= prompt_index(specs, p@),
        decreases agents.len() - i,
    {
        assert(agents@[i as int]@ == specs[i as int]);
        if str_eq(agents[i].system_prompt, p) {
            proof {
                assert(specs[i as int].system_prompt == p@);
                assert(i == prompt_index(specs, p@));
            }
            return agents[i].clone();
        }
        i = i + 1;
    }
    main_agent()
}

impl AgentError {
    /// The error as a sentence.
    pub fn message(&self) -> (r: String)
        ensures
            match self {
                AgentError::NotFound(name) => r@ == "agent `"@ + name@
                    + "` was not found; available agents: "@ + join_seq(builtin_names(), ", "@),
            },
    {
        match self {
            AgentError::NotFound(name) => {
                let agents = builtin_agents();
                let mut available = String::new();
                let mut i: usize = 0;
                let ghost names = builtin_names();
                while i < agents.len()
                    invariant
                        i <= agents.len(),
                        agents_view(agents@) == builtin_agents_spec(),
                        names == builtin_names(),
                        available@ == join_seq(names.take(i as int), ", "@),
                    decreases agents.len() - i,
                {
                    proof {
                        lemma_join_push(names.take(i as int), ", "@, names[i as int]);
                        assert(names.take(i + 1) =~= names.take(i as int).push(names[i as int]));
                        assert(agents@[i as int].name@ == names[i as int]);
                    }
                    if i > 0 {
                        let sep = concat_str(available.as_str(), ", ");
                        available = concat_str(sep.as_str(), agents[i].name);
                    } else {
                        available = concat_str(agents[i].name, "");
                        proof {
                            reveal_strlit("");
                        }
                    }
                    i = i + 1;
                }
                proof {
                    assert(names.take(i as int) =~= names);
                }
                let head = concat_str("agent `", name.as_str());
                let mid = concat_str(head.as_str(), "` was not found; available agents: ");
                concat_str(mid.as_str(), available.as_str())
            },
        }
    }
}

/// No two built-in agents share a name, so a name picks at most one agent.
pub proof fn lemma_builtin_names_unique()
    ensures
        forall|i: int, j: int|
            0 <= i < j < builtin_agents_spec().len() ==> builtin_agents_spec()[i].name
                != builtin_agents_spec()[j].name,
{
    reveal_strlit("main");
    reveal_strlit("reader");
    reveal_strlit("smart_home");
    reveal_strlit("digital_files");
    reveal_strlit("digital_documents");
    reveal_strlit("digital_knowledge");
    reveal_strlit("digital_security");
    reveal_strlit("digital_photos");
    reveal_strlit("digital_media");
    reveal_strlit("digital_life");
    let s = builtin_agents_spec();
    assert(s[0].name[0] != s[1].name[0]);
    assert(s[0].name[0] != s[2].name[0]);
    assert(s[0].name[0] != s[3].name[0]);
    assert(s[0].name[0] != s[4].name[0]);
    assert(s[0].name[0] != s[5].name[0]);
    assert(s[0].name[0] != s[6].name[0]);
    assert(s[0].name[0] != s[7].name[0]);
    assert(s[0].name[0] != s[8].name[0]);
    assert(s[0].name[0] != s[9].name[0]);
    assert(s[1].name[0] != s[2].name[0]);
    assert(s[1].name[0] != s[3].name[0]);
    assert(s[1].name[0] != s[4].name[0]);
    assert(s[1].name[0] != s[5].name[0]);
    assert(s[1].name[0] != s[6].name[0]);
    assert(s[1].name[0] != s[7].name[0]);
    assert(s[1].name[0] != s[8].name[0]);
    assert(s[1].name[0] != s[9].name[0]);
    assert(s[2].name[0] != s[3].name[0]);
    assert(s[2].name[0] != s[4].name[0]);
    assert(s[2].name[0] != s[5].name[0]);
    assert(s[2].name[0] != s[6].name[0]);
    assert(s[2].name[0] != s[7].name[0]);
    assert(s[2].name[0] != s[8].name[0]);
    assert(s[2].name[0] != s[9].name[0]);
    assert(s[3].name[8] != s[4].name[8]);
    assert(s[3].name[8] != s[5].name[8]);
    assert(s[3].name[8] != s[6].name[8]);
    assert(s[3].name[8] != s[7].name[8]);
    assert(s[3].name[8] != s[8].name[8]);
    assert(s[3].name[8] != s[9].name[8]);
    assert(s[4].name[8] != s[5].name[8]);
    assert(s[4].name[8] != s[6].name[8]);
    assert(s[4].name[8] != s[7].name[8]);
    assert(s[4].name[8] != s[8].name[8]);
    assert(s[4].name[8] != s[9].name[8]);
    assert(s[5].name[8] != s[6].name[8]);
    assert(s[5].name[8] != s[7].name[8]);
    assert(s[5].name[8] != s[8].name[8]);
    assert(s[5].name[8] != s[9].name[8]);
    assert(s[6].name[8] != s[7].name[8]);
    assert(s[6].name[8] != s[8].name[8]);
    assert(s[6].name[8] != s[9].name[8]);
    assert(s[7].name[8] != s[8].name[8]);
    assert(s[7].name[8] != s[9].name[8]);
    assert(s[8].name[8] != s[9].name[8]);
}

impl AgentDefinition {
    /// The declarations of this agent's tools, taken from the built-in tool
    /// table, in the order the agent lists them; an error for the first name
    /// that the table lacks.
    pub fn tools(&self) -> (r: Result<Vec<crate::tools::ToolSpec>, crate::tools::ToolError>)
        ensures
            ({
                let sv = crate::tool_table::tool_specs_spec();
                let nv = self@.tool_names;
                match r {
                    Ok(found) => crate::tools::all_known(sv, nv) && crate::tools::specs_view(found@)
                        == nv.map_values(|n: Seq<char>| sv[crate::tools::spec_index(sv, n)]),
                    Err(e) => !crate::tools::all_known(sv, nv) && (e matches crate::tools::ToolError::UnknownToolInAgent(
                        n,
                    ) && n@ == nv[crate::tools::first_unknown(sv, nv)]),
                }
            }),
    {
        let names = self.tool_names();
        proof {
            assert(crate::tools::names_view(names@) =~= strs_view(names@));
        }
        crate::tools::tool_specs_by_name(names)
    }
}

/// The built-in agents' system prompts are pairwise distinct, so looking an
/// agent up by its own prompt finds that agent.
pub proof fn lemma_builtin_prompts_distinct()
    ensures
        forall|i: int, j: int|
            0 <= i < builtin_agents_spec().len() && 0 <= j < builtin_agents_spec().len() && i != j
                ==> builtin_agents_spec()[i].system_prompt != builtin_agents_spec()[j].system_prompt,
        forall|i: int|
            0 <= i < builtin_agents_spec().len() ==> prompt_index(
                builtin_agents_spec(),
                #[trigger] builtin_agents_spec()[i].system_prompt,
            ) == i,
{
    reveal_strlit("You are ROB, a Linux-native CLI agent migrated from OpenOmniBot concepts. Use tools when they help inspect the local Linux environment. Keep answers concise. When using shell_exec, pass a command and argv array; never assume shell expansion.");
    reveal_strlit("You are ROB Reader, a read-only Linux inspection agent. Use read-only tools to inspect files, directories, and text. Do not attempt to execute shell commands.");
    reveal_strlit("你是 ROB Smart Home，一个智能家居控制 agent。你的任务是把用户的自然语言指令解析成明确、可执行的智能家居工具调用。优先使用智能家居专用工具，不要使用 Linux shell 工具。当用户要控制设备时，提取楼层、房间、设备名称、动作和值；用户未说明楼层或房间时不要编造，可省略对应字段。如果用户原话中出现楼层、房间或设备名称/别名，必须原样写入对应字段，不要省略，不要改成更泛化的名称。当用户说“全屋”时，把 room 设置为“全屋”。默认调节步长必须显式写入工具参数：扬声器音量调大/调小必须填 delta_percent=10，灯光亮度调大/调小必须填 delta_percent=20，灯光色温调冷/调暖必须填 delta_kelvin=500。静音必须调用 smart_home_control_speaker，action=mute，并显式填写 volume_percent=0。音量/亮度/窗帘开合度中的“一半”表示 50%。灯光色调映射：暖光/暖色调为 3000K，中性光/自然光为 4000K，白光/冷光/冷色调为 6000K。色温字段必须填写完整 K 数值：1000K 写 1000，1200K 写 1200，3000K 写 3000，4000K 写 4000，6000K 写 6000；严禁省略末尾 0，严禁把 K 值除以 10。凡是用户要求调节色温、设置色温、调成暖光/中性光/自然光/白光/冷光，必须优先调用 smart_home_control_light_temperature。“调冷一点/调白一点/色温调高/提高色温/增加色温”是 increase_color_temperature，默认 delta_kelvin=500；“调暖一点/调黄一点/色温调低/降低色温/减少色温”是 decrease_color_temperature，默认 delta_kelvin=500。颜色映射：红色=(255,0,0)，橙色=(255,165,0)，黄色=(255,255,0)，绿色=(0,255,0)，青色=(0,255,255)，蓝色=(0,0,255)，紫色=(128,0,128)。插座、智能插座、计量插座、智能插头、插头、墙壁插座都属于 device_category=outlet；一路开关、二路开关、三路开关、单开、双开、三开、墙壁开关、无线开关、通断器都属于 device_category=wall_switch。打开/开开/接通/通电/按亮/弄亮是 turn_on；关闭/关掉/断开/断电/按灭/弄灭是 turn_off；不要把关闭理解为 stop。如果用户同时给出多个独立控制目标，可以发起多个独立工具调用。如果缺少执行所必需的信息且无法合理省略，先用简短中文追问。工具调用后，用简洁中文确认已提交的控制意图。");
    reveal_strlit("你是 ROB Digital Life，一个个人数字生活专家 agent。将用户关于文件、文档、笔记、安防、相册照片、影音的请求解析成一个最匹配的专用工具调用；不要使用 Linux shell 工具。工具路由：文件管理用 digital_file_manager；摘要、文档元信息、翻译、OCR、写作辅助、结构化提取用 digital_document_assistant；笔记标签/关联/检索用 digital_note_knowledge；安防事件用 digital_security_event_query，身份出现判断用 digital_security_identity_recognition，摄像头控制用 digital_security_camera_control；相册查询/创建用 digital_photo_album，单张照片元信息用 digital_photo_metadata；字幕用 digital_media_subtitle；影视类型/语言地区点播必须用对应窄工具，其余影视用 digital_video_playback；音乐类型/语言点播必须用对应窄工具，其余音乐用 digital_music_playback；当前播放暂停/继续只用 digital_media_transport_control。同一请求通常只调用一个工具；除非用户明确给出多个独立任务，不要拆成多次工具调用。用户原话中的路径、文件名、照片 ID、相册名、影片名、歌名、歌手、导演、演员、镜头/区域、人物、标签、主题、关键词、相对时间必须原样写入对应槽位，不要泛化、翻译或补全。相对时间写入 time_query；安防事件里门口/客厅/院子/车库/走廊等位置词写入 camera_name，不写 area；全局事件查询填 camera_name=全屋。安防边界：人员/行为/车辆/车牌/包裹/宠物/野生动物/烟火/声音都属于事件查询；含徘徊/跌倒/翻越/入水/摔跤用 human_behavior；宠物跑出/翻越/入水/打架/跌倒用 pet_behavior，去哪/活动/几次用 pet_activity，在不在/有没有用 pet_presence；爸爸、妈妈、张三等熟人或陌生人是否出现属于身份识别；隐私模式、抓拍、音量、对讲、布防/撤防属于摄像头控制。例：门口有人吗 => camera_name=门口；今天门口有人徘徊吗 => action=human_behavior,camera_name=门口。影音边界：影视和音乐分开；只有没有标题、人物、类型、语言、地区、片单、歌单等限制时才用推荐类 action。来点/来部/放点/推荐若带类型、语言、地区、歌手、导演、年代，必须用对应受限 action；同时有人物和类型/年代/语言/歌名时用 combined action。片单/歌单/收藏/最近播放按领域选择，暂停/继续当前播放不要理解为最近播放。例：来部喜剧片 => digital_video_genre_playback；来点流行 => digital_music_genre_playback。“这个文件”“这张照片”“这份 PDF/docx/xlsx”等指代只有在上下文能确定目标时才使用；上下文缺少目标路径或对象 ID 时，先简短追问。普通闲聊或不属于本 agent 能力范围时直接简短回答。工具返回 mock payload 时，只说明已提交或查到的意图，不要声称真实后端已完成不可验证的操作。");
    reveal_strlit("你是 ROB 文件智能管家，一个专注本地文件管理的 agent。只处理文件和目录相关请求，包括查看属性、列目录、统计目录、移动/复制单个文件、重命名、添加/删除/查询文件标签；不要使用 Linux shell 工具。文件管理请求一律使用 digital_file_manager。用户原话中的路径、文件名、目标目录、新文件名、标签名必须原样写入对应字段，不要泛化、翻译或补全。如果用户说“这个文件”“这个目录”等指代，只有上下文能确定目标路径时才使用；无法确定时用简短中文追问。同一请求通常只调用一次工具；只有用户明确给出多个独立文件任务时才发起多个独立调用。工具返回 mock payload 时，只说明已提交或查到的意图，不要声称真实后端已完成不可验证的操作。");
    reveal_strlit("你是 ROB 文档智能助手，一个专注文档处理、OCR、结构化提取和短文本写作的 agent。将用户关于 PDF、Word、PPT、表格、图片 OCR、扫描件、票据/发票/合同字段提取、短文本总结/翻译/润色/改写/扩写/压缩的请求解析成最匹配的文档工具调用；不要使用 Linux shell 工具。工具路由：PDF 加密/拆页/合并/旋转/水印/表单/元信息用 digital_pdf_document；Word 创建/替换/批注/目录/元信息用 digital_word_document；PPT 生成用 digital_ppt_generation；表格公式列/CSV 转 xlsx/筛选/新建用 digital_spreadsheet；图片或扫描件文字识别用 digital_ocr；发票/票据/合同等字段提取用 digital_structured_extract；短文本总结、翻译、润色、改写、扩写、压缩用 digital_text_assistant；无法确定细分格式但仍是文档工作流时可用 digital_document_assistant 或 digital_document_workspace。用户原话中的文件路径、页码范围、密码、水印文字、字段名、标题、大纲、公式、筛选条件、目标语言和输出路径必须原样写入对应槽位。“这个文档”“这份 PDF/docx/xlsx/图片”等指代只有上下文能确定目标文件时才使用；缺少必要路径、页码范围、密码或字段时，先简短追问。工具返回 mock payload 时，只说明已提交或查到的意图，不要声称真实后端已完成不可验证的操作。");
    reveal_strlit("你是 ROB 知识学习助手，一个专注笔记、知识库、学习材料整理和简短学习文本处理的 agent。将用户关于笔记打标签、关联笔记、新建主题、关键词检索、笔记问答，以及学习文本总结/翻译/改写/扩写/压缩的请求解析成最匹配的工具调用；不要使用 Linux shell 工具。工具路由：笔记标签、笔记关联、主题创建、关键词检索、基于笔记的问答用 digital_note_knowledge；短学习文本的总结、翻译、润色、改写、扩写、压缩用 digital_text_assistant。用户原话中的笔记路径、笔记 ID、主题名、标签名、关键词、问题和待处理文本必须原样写入对应槽位，不要替换成更泛化的词。如果用户问“我有没有写过/学过/整理过某主题”，优先用 digital_note_knowledge 的检索或问答动作；如果只是让你处理一段直接给出的短文本，用 digital_text_assistant。工具返回 mock payload 时，只说明已提交或查到的意图，不要声称真实知识库已有不可验证内容。");
    reveal_strlit("你是 ROB 监控安防管家，一个专注家庭摄像头、监控事件、身份识别和摄像头控制的 agent。将用户关于人员/行为/车辆/车牌/包裹/宠物/野生动物/烟火/声音事件、已知人或陌生人出现、当前画面主体识别、隐私模式、抓拍、音量、对讲、布防/撤防的请求解析成最匹配的安防工具调用；不要使用 Linux shell 工具。工具路由：人员、行为、车辆、车牌、包裹、宠物、野生动物、烟火、玻璃破碎、咳嗽、哭声等事件优先用 digital_security_event_query；已知人物或陌生人是否出现用 digital_security_identity_recognition，历史人物/身份类别查询可用 digital_security_person_history 或 digital_security_identity_history，当前门口/镜头是谁用 digital_security_current_subject；隐私模式、抓拍、音量、对讲、布防/撤防用 digital_security_camera_control。窄事件工具仅在其 schema 更准确匹配用户意图时使用。用户原话中的门口、客厅、院子、车库、走廊等位置词优先写入 camera_name；全局事件查询填 camera_name=全屋；时间表达必须原样写入 time_query，当前状态未说明时间时填“现在”。不要把安防位置写成不存在于工具 schema 的字段；不要把“继续播放”等影音意图误判为安防。工具返回 mock payload 时，只说明已提交或查到的意图，不要声称真实摄像头后端已完成不可验证操作。");
    reveal_strlit("你是 ROB 智能相册专家，一个专注相册、照片检索和照片元信息的 agent。将用户关于相册列表、共享相册、人物相册、物体/场景相册、创建相册、照片在哪个相册、单张照片拍摄时间/地点/相机/EXIF 的请求解析成最匹配的相册工具调用；不要使用 Linux shell 工具。工具路由：相册列表、人物相册、物体/场景相册、新建相册用 digital_photo_album；共享相册、按相册名搜索、查询照片在哪个相册用 digital_photo_album_search；单张照片拍摄时间、地点、相机、EXIF 或完整元信息用 digital_photo_metadata；兼容旧的混合相册查询可用 digital_photo_library。用户原话中的相册名、人物名、物体/场景名、照片 ID、照片路径和照片自然语言描述必须原样写入对应槽位。“这张照片”只有上下文能确定 photo_id 或 photo_path 时才使用；无法确定时先简短追问。工具返回 mock payload 时，只说明已提交或查到的意图，不要声称真实相册后端已有不可验证结果。");
    reveal_strlit("你是 ROB 娱乐影音大咖，一个专注影视、音乐、字幕和播放控制的 agent。将用户关于影视点播/推荐、音乐点播/推荐、片单/歌单/收藏/最近播放、选集/切歌、字幕搜索下载、投屏、音轨/字幕切换、播放进度、暂停/继续当前播放的请求解析成最匹配的影音工具调用；不要使用 Linux shell 工具。工具路由：影视类型点播必须用 digital_video_genre_playback，影视语言/地区点播必须用 digital_video_region_playback，普通影视标题/导演/演员/年代/组合条件用 digital_video_playback，影视片单/最近播放/收藏用 digital_video_collection_playback，选集用 digital_video_episode_control；音乐类型点播必须用 digital_music_genre_playback，音乐语言点播必须用 digital_music_language_playback，普通歌曲/歌手/专辑/年代/组合条件用 digital_music_playback，歌单/最近播放/收藏用 digital_music_collection_playback，切歌/上一首/再听一遍用 digital_music_track_control；当前播放暂停/继续只用 digital_media_transport_control；字幕搜索/下载挂载用 digital_media_subtitle；投屏、播放进度、音轨切换等跨媒体控制可用 digital_media_control。影视和音乐必须分开判断；只有没有标题、人物、类型、语言、地区、片单、歌单等限制时才使用泛推荐。来点/来部/放点/推荐若带类型、语言、地区、歌手、导演、年代，必须使用对应受限工具；同时有人物和类型/年代/语言/歌名时用 combined action。用户原话中的影片名、剧名、歌名、歌手、导演、演员、类型、语言、地区、片单/歌单名、集数、字幕版本、目标设备必须原样写入对应槽位。工具返回 mock payload 时，只说明已提交或查到的意图，不要声称真实影音后端已完成不可验证操作。");
    let s = builtin_agents_spec();
    assert(s[0].system_prompt.len() != s[1].system_prompt.len());
    assert(s[0].system_prompt.len() != s[2].system_prompt.len());
    assert(s[0].system_prompt.len() != s[3].system_prompt.len());
    assert(s[0].system_prompt.len() != s[4].system_prompt.len());
    assert(s[0].system_prompt.len() != s[5].system_prompt.len());
    assert(s[0].system_prompt.len() != s[6].system_prompt.len());
    assert(s[0].system_prompt.len() != s[7].system_prompt.len());
    assert(s[0].system_prompt.len() != s[8].system_prompt.len());
    assert(s[0].system_prompt.len() != s[9].system_prompt.len());
    assert(s[1].system_prompt.len() != s[2].system_prompt.len());
    assert(s[1].system_prompt.len() != s[3].system_prompt.len());
    assert(s[1].system_prompt.len() != s[4].system_prompt.len());
    assert(s[1].system_prompt.len() != s[5].system_prompt.len());
    assert(s[1].system_prompt.len() != s[6].system_prompt.len());
    assert(s[1].system_prompt.len() != s[7].system_prompt.len());
    assert(s[1].system_prompt.len() != s[8].system_prompt.len());
    assert(s[1].system_prompt.len() != s[9].system_prompt.len());
    assert(s[2].system_prompt.len() != s[3].system_prompt.len());
    assert(s[2].system_prompt.len() != s[4].system_prompt.len());
    assert(s[2].system_prompt.len() != s[5].system_prompt.len());
    assert(s[2].system_prompt.len() != s[6].system_prompt.len());
    assert(s[2].system_prompt.len() != s[7].system_prompt.len());
    assert(s[2].system_prompt.len() != s[8].system_prompt.len());
    assert(s[2].system_prompt.len() != s[9].system_prompt.len());
    assert(s[3].system_prompt.len() != s[4].system_prompt.len());
    assert(s[3].system_prompt.len() != s[5].system_prompt.len());
    assert(s[3].system_prompt.len() != s[6].system_prompt.len());
    assert(s[3].system_prompt.len() != s[7].system_prompt.len());
    assert(s[3].system_prompt.len() != s[8].system_prompt.len());
    assert(s[3].system_prompt.len() != s[9].system_prompt.len());
    assert(s[4].system_prompt.len() != s[5].system_prompt.len());
    assert(s[4].system_prompt.len() != s[6].system_prompt.len());
    assert(s[4].system_prompt.len() != s[7].system_prompt.len());
    assert(s[4].system_prompt.len() != s[8].system_prompt.len());
    assert(s[4].system_prompt.len() != s[9].system_prompt.len());
    assert(s[5].system_prompt.len() != s[6].system_prompt.len());
    assert(s[5].system_prompt.len() != s[7].system_prompt.len());
    assert(s[5].system_prompt.len() != s[8].system_prompt.len());
    assert(s[5].system_prompt.len() != s[9].system_prompt.len());
    assert(s[6].system_prompt.len() != s[7].system_prompt.len());
    assert(s[6].system_prompt.len() != s[8].system_prompt.len());
    assert(s[6].system_prompt.len() != s[9].system_prompt.len());
    assert(s[7].system_prompt.len() != s[8].system_prompt.len());
    assert(s[7].system_prompt.len() != s[9].system_prompt.len());
    assert(s[8].system_prompt.len() != s[9].system_prompt.len());
    lemma_prompt_index_at(s, 0);
    lemma_prompt_index_at(s, 1);
    lemma_prompt_index_at(s, 2);
    lemma_prompt_index_at(s, 3);
    lemma_prompt_index_at(s, 4);
    lemma_prompt_index_at(s, 5);
    lemma_prompt_index_at(s, 6);
    lemma_prompt_index_at(s, 7);
    lemma_prompt_index_at(s, 8);
    lemma_prompt_index_at(s, 9);
}

/// Where the agents before position `i` all have other prompts, the
/// agent at `i` is the first with its prompt.
proof fn lemma_prompt_index_at(agents: Seq<AgentView>, i: int)
    requires
        0 <= i < agents.len(),
        forall|j: int| 0 <= j < i ==> (#[trigger] agents[j]).system_prompt != agents[i].system_prompt,
    ensures
        prompt_index(agents, agents[i].system_prompt) == i,
    decreases i,
{
    if i > 0 {
        assert forall|j: int| 0 <= j < i - 1 implies (#[trigger] agents.drop_first()[j]).system_prompt
            != agents.drop_first()[i - 1].system_prompt by {
            assert(agents.drop_first()[j] == agents[j + 1]);
        }
        lemma_prompt_index_at(agents.drop_first(), i - 1);
    }
}

/// No built-in agent lists a tool twice, and only the `main` agent may run
/// shell commands.
pub proof fn lemma_builtin_tool_names()
    ensures
        forall|i: int|
            0 <= i < builtin_agents_spec().len() ==> (#[trigger] builtin_agents_spec()[i]).tool_names.no_duplicates(),
        forall|i: int|
            0 <= i < builtin_agents_spec().len() && builtin_agents_spec()[i].name != "main"@
                ==> !(#[trigger] builtin_agents_spec()[i]).tool_names.contains("shell_exec"@),
{
    reveal_strlit("digital_document_assistant");
    reveal_strlit("digital_document_workspace");
    reveal_strlit("digital_documents");
    reveal_strlit("digital_file_manager");
    reveal_strlit("digital_files");
    reveal_strlit("digital_knowledge");
    reveal_strlit("digital_life");
    reveal_strlit("digital_media");
    reveal_strlit("digital_media_control");
    reveal_strlit("digital_media_subtitle");
    reveal_strlit("digital_media_transport_control");
    reveal_strlit("digital_music_collection_playback");
    reveal_strlit("digital_music_genre_playback");
    reveal_strlit("digital_music_language_playback");
    reveal_strlit("digital_music_playback");
    reveal_strlit("digital_music_recommendation");
    reveal_strlit("digital_music_track_control");
    reveal_strlit("digital_note_knowledge");
    reveal_strlit("digital_ocr");
    reveal_strlit("digital_pdf_document");
    reveal_strlit("digital_photo_album");
    reveal_strlit("digital_photo_album_search");
    reveal_strlit("digital_photo_library");
    reveal_strlit("digital_photo_metadata");
    reveal_strlit("digital_photos");
    reveal_strlit("digital_ppt_generation");
    reveal_strlit("digital_security");
    reveal_strlit("digital_security_camera_control");
    reveal_strlit("digital_security_current_subject");
    reveal_strlit("digital_security_event_query");
    reveal_strlit("digital_security_identity_history");
    reveal_strlit("digital_security_identity_recognition");
    reveal_strlit("digital_security_person_history");
    reveal_strlit("digital_security_person_type_query");
    reveal_strlit("digital_security_pet_activity_query");
    reveal_strlit("digital_security_pet_behavior_query");
    reveal_strlit("digital_security_pet_presence_query");
    reveal_strlit("digital_security_plate_query");
    reveal_strlit("digital_security_vehicle_entry_query");
    reveal_strlit("digital_security_vehicle_presence_query");
    reveal_strlit("digital_spreadsheet");
    reveal_strlit("digital_structured_extract");
    reveal_strlit("digital_text_assistant");
    reveal_strlit("digital_video_collection_playback");
    reveal_strlit("digital_video_episode_control");
    reveal_strlit("digital_video_genre_playback");
    reveal_strlit("digital_video_playback");
    reveal_strlit("digital_video_recommendation");
    reveal_strlit("digital_video_region_playback");
    reveal_strlit("digital_word_document");
    reveal_strlit("list_dir");
    reveal_strlit("main");
    reveal_strlit("pwd");
    reveal_strlit("read_file");
    reveal_strlit("reader");
    reveal_strlit("search_text");
    reveal_strlit("shell_exec");
    reveal_strlit("smart_home");
    reveal_strlit("smart_home_control_curtain");
    reveal_strlit("smart_home_control_light");
    reveal_strlit("smart_home_control_light_temperature");
    reveal_strlit("smart_home_control_power");
    reveal_strlit("smart_home_control_scene");
    reveal_strlit("smart_home_control_speaker");
    let s = builtin_agents_spec();
    let t0 = s[0].tool_names;
    assert(t0 =~= seq!["pwd"@, "list_dir"@, "read_file"@, "search_text"@, "shell_exec"@]);
    assert(t0[0].len() != t0[1].len());
    assert(t0[0].len() != t0[2].len());
    assert(t0[0].len() != t0[3].len());
    assert(t0[0].len() != t0[4].len());
    assert(t0[1].len() != t0[2].len());
    assert(t0[1].len() != t0[3].len());
    assert(t0[1].len() != t0[4].len());
    assert(t0[2].len() != t0[3].len());
    assert(t0[2].len() != t0[4].len());
    assert(t0[3].len() != t0[4].len());
    assert(t0.no_duplicates());
    let t1 = s[1].tool_names;
    assert(t1 =~= seq!["pwd"@, "list_dir"@, "read_file"@, "search_text"@]);
    assert(t1[0].len() != t1[1].len());
    assert(t1[0].len() != t1[2].len());
    assert(t1[0].len() != t1[3].len());
    assert(t1[1].len() != t1[2].len());
    assert(t1[1].len() != t1[3].len());
    assert(t1[2].len() != t1[3].len());
    assert(t1.no_duplicates());
    assert(s[1].name.len() != "main"@.len());
    assert(t1[0].len() != "shell_exec"@.len());
    assert(t1[1].len() != "shell_exec"@.len());
    assert(t1[2].len() != "shell_exec"@.len());
    assert(t1[3].len() != "shell_exec"@.len());
    assert(!t1.contains("shell_exec"@));
    let t2 = s[2].tool_names;
    assert(t2 =~= seq!["smart_home_control_speaker"@, "smart_home_control_light_temperature"@, "smart_home_control_light"@, "smart_home_control_curtain"@, "smart_home_control_power"@, "smart_home_control_scene"@]);
    assert(t2[0].len() != t2[1].len());
    assert(t2[0].len() != t2[2].len());
    assert(t2[0][19] != t2[3][19]);
    assert(t2[0].len() != t2[4].len());
    assert(t2[0].len() != t2[5].len());
    assert(t2[1].len() != t2[2].len());
    assert(t2[1].len() != t2[3].len());
    assert(t2[1].len() != t2[4].len());
    assert(t2[1].len() != t2[5].len());
    assert(t2[2].len() != t2[3].len());
    assert(t2[2][19] != t2[4][19]);
    assert(t2[2][19] != t2[5][19]);
    assert(t2[3].len() != t2[4].len());
    assert(t2[3].len() != t2[5].len());
    assert(t2[4][19] != t2[5][19]);
    assert(t2.no_duplicates());
    assert(s[2].name.len() != "main"@.len());
    assert(t2[0].len() != "shell_exec"@.len());
    assert(t2[1].len() != "shell_exec"@.len());
    assert(t2[2].len() != "shell_exec"@.len());
    assert(t2[3].len() != "shell_exec"@.len());
    assert(t2[4].len() != "shell_exec"@.len());
    assert(t2[5].len() != "shell_exec"@.len());
    assert(!t2.contains("shell_exec"@));
    let t3 = s[3].tool_names;
    assert(t3 =~= seq!["digital_file_manager"@]);
    assert(t3.no_duplicates());
    assert(s[3].name.len() != "main"@.len());
    assert(t3[0].len() != "shell_exec"@.len());
    assert(!t3.contains("shell_exec"@));
    let t4 = s[4].tool_names;
    assert(t4 =~= seq!["digital_document_assistant"@, "digital_document_workspace"@, "digital_pdf_document"@, "digital_word_document"@, "digital_ppt_generation"@, "digital_spreadsheet"@, "digital_ocr"@, "digital_structured_extract"@, "digital_text_assistant"@]);
    assert(t4[0][17] != t4[1][17]);
    assert(t4[0].len() != t4[2].len());
    assert(t4[0].len() != t4[3].len());
    assert(t4[0].len() != t4[4].len());
    assert(t4[0].len() != t4[5].len());
    assert(t4[0].len() != t4[6].len());
    assert(t4[0][8] != t4[7][8]);
    assert(t4[0].len() != t4[8].len());
    assert(t4[1].len() != t4[2].len());
    assert(t4[1].len() != t4[3].len());
    assert(t4[1].len() != t4[4].len());
    assert(t4[1].len() != t4[5].len());
    assert(t4[1].len() != t4[6].len());
    assert(t4[1][8] != t4[7][8]);
    assert(t4[1].len() != t4[8].len());
    assert(t4[2].len() != t4[3].len());
    assert(t4[2].len() != t4[4].len());
    assert(t4[2].len() != t4[5].len());
    assert(t4[2].len() != t4[6].len());
    assert(t4[2].len() != t4[7].len());
    assert(t4[2].len() != t4[8].len());
    assert(t4[3].len() != t4[4].len());
    assert(t4[3].len() != t4[5].len());
    assert(t4[3].len() != t4[6].len());
    assert(t4[3].len() != t4[7].len());
    assert(t4[3].len() != t4[8].len());
    assert(t4[4].len() != t4[5].len());
    assert(t4[4].len() != t4[6].len());
    assert(t4[4].len() != t4[7].len());
    assert(t4[4][8] != t4[8][8]);
    assert(t4[5].len() != t4[6].len());
    assert(t4[5].len() != t4[7].len());
    assert(t4[5].len() != t4[8].len());
    assert(t4[6].len() != t4[7].len());
    assert(t4[6].len() != t4[8].len());
    assert(t4[7].len() != t4[8].len());
    assert(t4.no_duplicates());
    assert(s[4].name.len() != "main"@.len());
    assert(t4[0].len() != "shell_exec"@.len());
    assert(t4[1].len() != "shell_exec"@.len());
    assert(t4[2].len() != "shell_exec"@.len());
    assert(t4[3].len() != "shell_exec"@.len());
    assert(t4[4].len() != "shell_exec"@.len());
    assert(t4[5].len() != "shell_exec"@.len());
    assert(t4[6].len() != "shell_exec"@.len());
    assert(t4[7].len() != "shell_exec"@.len());
    assert(t4[8].len() != "shell_exec"@.len());
    assert(!t4.contains("shell_exec"@));
    let t5 = s[5].tool_names;
    assert(t5 =~= seq!["digital_note_knowledge"@, "digital_text_assistant"@]);
    assert(t5[0][8] != t5[1][8]);
    assert(t5.no_duplicates());
    assert(s[5].name.len() != "main"@.len());
    assert(t5[0].len() != "shell_exec"@.len());
    assert(t5[1].len() != "shell_exec"@.len());
    assert(!t5.contains("shell_exec"@));
    let t6 = s[6].tool_names;
    assert(t6 =~= seq!["digital_security_event_query"@, "digital_security_person_type_query"@, "digital_security_vehicle_entry_query"@, "digital_security_vehicle_presence_query"@, "digital_security_plate_query"@, "digital_security_pet_activity_query"@, "digital_security_pet_presence_query"@, "digital_security_pet_behavior_query"@, "digital_security_camera_control"@, "digital_security_identity_recognition"@, "digital_security_person_history"@, "digital_security_identity_history"@, "digital_security_current_subject"@]);
    assert(t6[0].len() != t6[1].len());
    assert(t6[0].len() != t6[2].len());
    assert(t6[0].len() != t6[3].len());
    assert(t6[0][17] != t6[4][17]);
    assert(t6[0].len() != t6[5].len());
    assert(t6[0].len() != t6[6].len());
    assert(t6[0].len() != t6[7].len());
    assert(t6[0].len() != t6[8].len());
    assert(t6[0].len() != t6[9].len());
    assert(t6[0].len() != t6[10].len());
    assert(t6[0].len() != t6[11].len());
    assert(t6[0].len() != t6[12].len());
    assert(t6[1].len() != t6[2].len());
    assert(t6[1].len() != t6[3].len());
    assert(t6[1].len() != t6[4].len());
    assert(t6[1].len() != t6[5].len());
    assert(t6[1].len() != t6[6].len());
    assert(t6[1].len() != t6[7].len());
    assert(t6[1].len() != t6[8].len());
    assert(t6[1].len() != t6[9].len());
    assert(t6[1].len() != t6[10].len());
    assert(t6[1].len() != t6[11].len());
    assert(t6[1].len() != t6[12].len());
    assert(t6[2].len() != t6[3].len());
    assert(t6[2].len() != t6[4].len());
    assert(t6[2].len() != t6[5].len());
    assert(t6[2].len() != t6[6].len());
    assert(t6[2].len() != t6[7].len());
    assert(t6[2].len() != t6[8].len());
    assert(t6[2].len() != t6[9].len());
    assert(t6[2].len() != t6[10].len());
    assert(t6[2].len() != t6[11].len());
    assert(t6[2].len() != t6[12].len());
    assert(t6[3].len() != t6[4].len());
    assert(t6[3].len() != t6[5].len());
    assert(t6[3].len() != t6[6].len());
    assert(t6[3].len() != t6[7].len());
    assert(t6[3].len() != t6[8].len());
    assert(t6[3].len() != t6[9].len());
    assert(t6[3].len() != t6[10].len());
    assert(t6[3].len() != t6[11].len());
    assert(t6[3].len() != t6[12].len());
    assert(t6[4].len() != t6[5].len());
    assert(t6[4].len() != t6[6].len());
    assert(t6[4].len() != t6[7].len());
    assert(t6[4].len() != t6[8].len());
    assert(t6[4].len() != t6[9].len());
    assert(t6[4].len() != t6[10].len());
    assert(t6[4].len() != t6[11].len());
    assert(t6[4].len() != t6[12].len());
    assert(t6[5][21] != t6[6][21]);
    assert(t6[5][21] != t6[7][21]);
    assert(t6[5].len() != t6[8].len());
    assert(t6[5].len() != t6[9].len());
    assert(t6[5].len() != t6[10].len());
    assert(t6[5].len() != t6[11].len());
    assert(t6[5].len() != t6[12].len());
    assert(t6[6][21] != t6[7][21]);
    assert(t6[6].len() != t6[8].len());
    assert(t6[6].len() != t6[9].len());
    assert(t6[6].len() != t6[10].len());
    assert(t6[6].len() != t6[11].len());
    assert(t6[6].len() != t6[12].len());
    assert(t6[7].len() != t6[8].len());
    assert(t6[7].len() != t6[9].len());
    assert(t6[7].len() != t6[10].len());
    assert(t6[7].len() != t6[11].len());
    assert(t6[7].len() != t6[12].len());
    assert(t6[8].len() != t6[9].len());
    assert(t6[8][17] != t6[10][17]);
    assert(t6[8].len() != t6[11].len());
    assert(t6[8].len() != t6[12].len());
    assert(t6[9].len() != t6[10].len());
    assert(t6[9].len() != t6[11].len());
    assert(t6[9].len() != t6[12].len());
    assert(t6[10].len() != t6[11].len());
    assert(t6[10].len() != t6[12].len());
    assert(t6[11].len() != t6[12].len());
    assert(t6.no_duplicates());
    assert(s[6].name.len() != "main"@.len());
    assert(t6[0].len() != "shell_exec"@.len());
    assert(t6[1].len() != "shell_exec"@.len());
    assert(t6[2].len() != "shell_exec"@.len());
    assert(t6[3].len() != "shell_exec"@.len());
    assert(t6[4].len() != "shell_exec"@.len());
    assert(t6[5].len() != "shell_exec"@.len());
    assert(t6[6].len() != "shell_exec"@.len());
    assert(t6[7].len() != "shell_exec"@.len());
    assert(t6[8].len() != "shell_exec"@.len());
    assert(t6[9].len() != "shell_exec"@.len());
    assert(t6[10].len() != "shell_exec"@.len());
    assert(t6[11].len() != "shell_exec"@.len());
    assert(t6[12].len() != "shell_exec"@.len());
    assert(!t6.contains("shell_exec"@));
    let t7 = s[7].tool_names;
    assert(t7 =~= seq!["digital_photo_album"@, "digital_photo_album_search"@, "digital_photo_metadata"@, "digital_photo_library"@]);
    assert(t7[0].len() != t7[1].len());
    assert(t7[0].len() != t7[2].len());
    assert(t7[0].len() != t7[3].len());
    assert(t7[1].len() != t7[2].len());
    assert(t7[1].len() != t7[3].len());
    assert(t7[2].len() != t7[3].len());
    assert(t7.no_duplicates());
    assert(s[7].name.len() != "main"@.len());
    assert(t7[0].len() != "shell_exec"@.len());
    assert(t7[1].len() != "shell_exec"@.len());
    assert(t7[2].len() != "shell_exec"@.len());
    assert(t7[3].len() != "shell_exec"@.len());
    assert(!t7.contains("shell_exec"@));
    let t8 = s[8].tool_names;
    assert(t8 =~= seq!["digital_media_subtitle"@, "digital_video_playback"@, "digital_video_recommendation"@, "digital_video_genre_playback"@, "digital_video_region_playback"@, "digital_video_collection_playback"@, "digital_video_episode_control"@, "digital_media_transport_control"@, "digital_media_control"@, "digital_music_playback"@, "digital_music_recommendation"@, "digital_music_genre_playback"@, "digital_music_language_playback"@, "digital_music_collection_playback"@, "digital_music_track_control"@]);
    assert(t8[0][8] != t8[1][8]);
    assert(t8[0].len() != t8[2].len());
    assert(t8[0].len() != t8[3].len());
    assert(t8[0].len() != t8[4].len());
    assert(t8[0].len() != t8[5].len());
    assert(t8[0].len() != t8[6].len());
    assert(t8[0].len() != t8[7].len());
    assert(t8[0].len() != t8[8].len());
    assert(t8[0][9] != t8[9][9]);
    assert(t8[0].len() != t8[10].len());
    assert(t8[0].len() != t8[11].len());
    assert(t8[0].len() != t8[12].len());
    assert(t8[0].len() != t8[13].len());
    assert(t8[0].len() != t8[14].len());
    assert(t8[1].len() != t8[2].len());
    assert(t8[1].len() != t8[3].len());
    assert(t8[1].len() != t8[4].len());
    assert(t8[1].len() != t8[5].len());
    assert(t8[1].len() != t8[6].len());
    assert(t8[1].len() != t8[7].len());
    assert(t8[1].len() != t8[8].len());
    assert(t8[1][8] != t8[9][8]);
    assert(t8[1].len() != t8[10].len());
    assert(t8[1].len() != t8[11].len());
    assert(t8[1].len() != t8[12].len());
    assert(t8[1].len() != t8[13].len());
    assert(t8[1].len() != t8[14].len());
    assert(t8[2][14] != t8[3][14]);
    assert(t8[2].len() != t8[4].len());
    assert(t8[2].len() != t8[5].len());
    assert(t8[2].len() != t8[6].len());
    assert(t8[2].len() != t8[7].len());
    assert(t8[2].len() != t8[8].len());
    assert(t8[2].len() != t8[9].len());
    assert(t8[2][8] != t8[10][8]);
    assert(t8[2][8] != t8[11][8]);
    assert(t8[2].len() != t8[12].len());
    assert(t8[2].len() != t8[13].len());
    assert(t8[2].len() != t8[14].len());
    assert(t8[3].len() != t8[4].len());
    assert(t8[3].len() != t8[5].len());
    assert(t8[3].len() != t8[6].len());
    assert(t8[3].len() != t8[7].len());
    assert(t8[3].len() != t8[8].len());
    assert(t8[3].len() != t8[9].len());
    assert(t8[3][8] != t8[10][8]);
    assert(t8[3][8] != t8[11][8]);
    assert(t8[3].len() != t8[12].len());
    assert(t8[3].len() != t8[13].len());
    assert(t8[3].len() != t8[14].len());
    assert(t8[4].len() != t8[5].len());
    assert(t8[4][14] != t8[6][14]);
    assert(t8[4].len() != t8[7].len());
    assert(t8[4].len() != t8[8].len());
    assert(t8[4].len() != t8[9].len());
    assert(t8[4].len() != t8[10].len());
    assert(t8[4].len() != t8[11].len());
    assert(t8[4].len() != t8[12].len());
    assert(t8[4].len() != t8[13].len());
    assert(t8[4].len() != t8[14].len());
    assert(t8[5].len() != t8[6].len());
    assert(t8[5].len() != t8[7].len());
    assert(t8[5].len() != t8[8].len());
    assert(t8[5].len() != t8[9].len());
    assert(t8[5].len() != t8[10].len());
    assert(t8[5].len() != t8[11].len());
    assert(t8[5].len() != t8[12].len());
    assert(t8[5][8] != t8[13][8]);
    assert(t8[5].len() != t8[14].len());
    assert(t8[6].len() != t8[7].len());
    assert(t8[6].len() != t8[8].len());
    assert(t8[6].len() != t8[9].len());
    assert(t8[6].len() != t8[10].len());
    assert(t8[6].len() != t8[11].len());
    assert(t8[6].len() != t8[12].len());
    assert(t8[6].len() != t8[13].len());
    assert(t8[6].len() != t8[14].len());
    assert(t8[7].len() != t8[8].len());
    assert(t8[7].len() != t8[9].len());
    assert(t8[7].len() != t8[10].len());
    assert(t8[7].len() != t8[11].len());
    assert(t8[7][9] != t8[12][9]);
    assert(t8[7].len() != t8[13].len());
    assert(t8[7].len() != t8[14].len());
    assert(t8[8].len() != t8[9].len());
    assert(t8[8].len() != t8[10].len());
    assert(t8[8].len() != t8[11].len());
    assert(t8[8].len() != t8[12].len());
    assert(t8[8].len() != t8[13].len());
    assert(t8[8].len() != t8[14].len());
    assert(t8[9].len() != t8[10].len());
    assert(t8[9].len() != t8[11].len());
    assert(t8[9].len() != t8[12].len());
    assert(t8[9].len() != t8[13].len());
    assert(t8[9].len() != t8[14].len());
    assert(t8[10][14] != t8[11][14]);
    assert(t8[10].len() != t8[12].len());
    assert(t8[10].len() != t8[13].len());
    assert(t8[10].len() != t8[14].len());
    assert(t8[11].len() != t8[12].len());
    assert(t8[11].len() != t8[13].len());
    assert(t8[11].len() != t8[14].len());
    assert(t8[12].len() != t8[13].len());
    assert(t8[12].len() != t8[14].len());
    assert(t8[13].len() != t8[14].len());
    assert(t8.no_duplicates());
    assert(s[8].name.len() != "main"@.len());
    assert(t8[0].len() != "shell_exec"@.len());
    assert(t8[1].len() != "shell_exec"@.len());
    assert(t8[2].len() != "shell_exec"@.len());
    assert(t8[3].len() != "shell_exec"@.len());
    assert(t8[4].len() != "shell_exec"@.len());
    assert(t8[5].len() != "shell_exec"@.len());
    assert(t8[6].len() != "shell_exec"@.len());
    assert(t8[7].len() != "shell_exec"@.len());
    assert(t8[8].len() != "shell_exec"@.len());
    assert(t8[9].len() != "shell_exec"@.len());
    assert(t8[10].len() != "shell_exec"@.len());
    assert(t8[11].len() != "shell_exec"@.len());
    assert(t8[12].len() != "shell_exec"@.len());
    assert(t8[13].len() != "shell_exec"@.len());
    assert(t8[14].len() != "shell_exec"@.len());
    assert(!t8.contains("shell_exec"@));
    let t9 = s[9].tool_names;
    assert(t9 =~= seq!["digital_file_manager"@, "digital_document_assistant"@, "digital_note_knowledge"@, "digital_security_event_query"@, "digital_security_identity_recognition"@, "digital_security_camera_control"@, "digital_photo_album"@, "digital_photo_metadata"@, "digital_media_subtitle"@, "digital_video_genre_playback"@, "digital_video_region_playback"@, "digital_video_playback"@, "digital_media_transport_control"@, "digital_music_genre_playback"@, "digital_music_language_playback"@, "digital_music_playback"@]);
    assert(t9[0].len() != t9[1].len());
    assert(t9[0].len() != t9[2].len());
    assert(t9[0].len() != t9[3].len());
    assert(t9[0].len() != t9[4].len());
    assert(t9[0].len() != t9[5].len());
    assert(t9[0].len() != t9[6].len());
    assert(t9[0].len() != t9[7].len());
    assert(t9[0].len() != t9[8].len());
    assert(t9[0].len() != t9[9].len());
    assert(t9[0].len() != t9[10].len());
    assert(t9[0].len() != t9[11].len());
    assert(t9[0].len() != t9[12].len());
    assert(t9[0].len() != t9[13].len());
    assert(t9[0].len() != t9[14].len());
    assert(t9[0].len() != t9[15].len());
    assert(t9[1].len() != t9[2].len());
    assert(t9[1].len() != t9[3].len());
    assert(t9[1].len() != t9[4].len());
    assert(t9[1].len() != t9[5].len());
    assert(t9[1].len() != t9[6].len());
    assert(t9[1].len() != t9[7].len());
    assert(t9[1].len() != t9[8].len());
    assert(t9[1].len() != t9[9].len());
    assert(t9[1].len() != t9[10].len());
    assert(t9[1].len() != t9[11].len());
    assert(t9[1].len() != t9[12].len());
    assert(t9[1].len() != t9[13].len());
    assert(t9[1].len() != t9[14].len());
    assert(t9[1].len() != t9[15].len());
    assert(t9[2].len() != t9[3].len());
    assert(t9[2].len() != t9[4].len());
    assert(t9[2].len() != t9[5].len());
    assert(t9[2].len() != t9[6].len());
    assert(t9[2][8] != t9[7][8]);
    assert(t9[2][8] != t9[8][8]);
    assert(t9[2].len() != t9[9].len());
    assert(t9[2].len() != t9[10].len());
    assert(t9[2][8] != t9[11][8]);
    assert(t9[2].len() != t9[12].len());
    assert(t9[2].len() != t9[13].len());
    assert(t9[2].len() != t9[14].len());
    assert(t9[2][8] != t9[15][8]);
    assert(t9[3].len() != t9[4].len());
    assert(t9[3].len() != t9[5].len());
    assert(t9[3].len() != t9[6].len());
    assert(t9[3].len() != t9[7].len());
    assert(t9[3].len() != t9[8].len());
    assert(t9[3][8] != t9[9][8]);
    assert(t9[3].len() != t9[10].len());
    assert(t9[3].len() != t9[11].len());
    assert(t9[3].len() != t9[12].len());
    assert(t9[3][8] != t9[13][8]);
    assert(t9[3].len() != t9[14].len());
    assert(t9[3].len() != t9[15].len());
    assert(t9[4].len() != t9[5].len());
    assert(t9[4].len() != t9[6].len());
    assert(t9[4].len() != t9[7].len());
    assert(t9[4].len() != t9[8].len());
    assert(t9[4].len() != t9[9].len());
    assert(t9[4].len() != t9[10].len());
    assert(t9[4].len() != t9[11].len());
    assert(t9[4].len() != t9[12].len());
    assert(t9[4].len() != t9[13].len());
    assert(t9[4].len() != t9[14].len());
    assert(t9[4].len() != t9[15].len());
    assert(t9[5].len() != t9[6].len());
    assert(t9[5].len() != t9[7].len());
    assert(t9[5].len() != t9[8].len());
    assert(t9[5].len() != t9[9].len());
    assert(t9[5].len() != t9[10].len());
    assert(t9[5].len() != t9[11].len());
    assert(t9[5][8] != t9[12][8]);
    assert(t9[5].len() != t9[13].len());
    assert(t9[5][8] != t9[14][8]);
    assert(t9[5].len() != t9[15].len());
    assert(t9[6].len() != t9[7].len());
    assert(t9[6].len() != t9[8].len());
    assert(t9[6].len() != t9[9].len());
    assert(t9[6].len() != t9[10].len());
    assert(t9[6].len() != t9[11].len());
    assert(t9[6].len() != t9[12].len());
    assert(t9[6].len() != t9[13].len());
    assert(t9[6].len() != t9[14].len());
    assert(t9[6].len() != t9[15].len());
    assert(t9[7][8] != t9[8][8]);
    assert(t9[7].len() != t9[9].len());
    assert(t9[7].len() != t9[10].len());
    assert(t9[7][8] != t9[11][8]);
    assert(t9[7].len() != t9[12].len());
    assert(t9[7].len() != t9[13].len());
    assert(t9[7].len() != t9[14].len());
    assert(t9[7][8] != t9[15][8]);
    assert(t9[8].len() != t9[9].len());
    assert(t9[8].len() != t9[10].len());
    assert(t9[8][8] != t9[11][8]);
    assert(t9[8].len() != t9[12].len());
    assert(t9[8].len() != t9[13].len());
    assert(t9[8].len() != t9[14].len());
    assert(t9[8][9] != t9[15][9]);
    assert(t9[9].len() != t9[10].len());
    assert(t9[9].len() != t9[11].len());
    assert(t9[9].len() != t9[12].len());
    assert(t9[9][8] != t9[13][8]);
    assert(t9[9].len() != t9[14].len());
    assert(t9[9].len() != t9[15].len());
    assert(t9[10].len() != t9[11].len());
    assert(t9[10].len() != t9[12].len());
    assert(t9[10].len() != t9[13].len());
    assert(t9[10].len() != t9[14].len());
    assert(t9[10].len() != t9[15].len());
    assert(t9[11].len() != t9[12].len());
    assert(t9[11].len() != t9[13].len());
    assert(t9[11].len() != t9[14].len());
    assert(t9[11][8] != t9[15][8]);
    assert(t9[12].len() != t9[13].len());
    assert(t9[12][9] != t9[14][9]);
    assert(t9[12].len() != t9[15].len());
    assert(t9[13].len() != t9[14].len());
    assert(t9[13].len() != t9[15].len());
    assert(t9[14].len() != t9[15].len());
    assert(t9.no_duplicates());
    assert(s[9].name.len() != "main"@.len());
    assert(t9[0].len() != "shell_exec"@.len());
    assert(t9[1].len() != "shell_exec"@.len());
    assert(t9[2].len() != "shell_exec"@.len());
    assert(t9[3].len() != "shell_exec"@.len());
    assert(t9[4].len() != "shell_exec"@.len());
    assert(t9[5].len() != "shell_exec"@.len());
    assert(t9[6].len() != "shell_exec"@.len());
    assert(t9[7].len() != "shell_exec"@.len());
    assert(t9[8].len() != "shell_exec"@.len());
    assert(t9[9].len() != "shell_exec"@.len());
    assert(t9[10].len() != "shell_exec"@.len());
    assert(t9[11].len() != "shell_exec"@.len());
    assert(t9[12].len() != "shell_exec"@.len());
    assert(t9[13].len() != "shell_exec"@.len());
    assert(t9[14].len() != "shell_exec"@.len());
    assert(t9[15].len() != "shell_exec"@.len());
    assert(!t9.contains("shell_exec"@));
}

} // verus!
