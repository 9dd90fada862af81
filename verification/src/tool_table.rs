//! The parameter schemas of the built-in tools, as JSON values.
//!
//! Each schema is written twice: as plain values (the spec functions that the
//! contracts speak of) and as the executable value that is declared to the
//! model; Verus proves the two equal. Object entries stand in the order of
//! their keys.

use vstd::prelude::*;
use crate::json::{entries_view, items_view, JsonNumber, JsonValue, JsonView, NumberView};
use crate::json::{get_field, lookup};
use crate::tools::{
    decorated, lemma_decorated_required, lemma_decorated_requires_title, required_names,
    title_schema, ToolSpecView,
};

verus! {

/// Appends `x` to a list of JSON values.
fn push_item(v: &mut Vec<JsonValue>, x: JsonValue)
    ensures
        items_view(final(v)@) == items_view(old(v)@).push(x@),
{
    let ghost before = v@;
    v.push(x);
    proof {
        assert(v@.drop_last() =~= before);
    }
}

/// Appends the entry `key: x` to the entries of a JSON object.
fn push_entry(e: &mut Vec<(String, JsonValue)>, key: &str, x: JsonValue)
    ensures
        entries_view(final(e)@) == entries_view(old(e)@).push((key@, x@)),
{
    let ghost before = e@;
    e.push((crate::text::owned(key), x));
    proof {
        assert(e@.drop_last() =~= before);
    }
}

/// A list of JSON values with nothing in it yet.
fn new_items() -> (v: Vec<JsonValue>)
    ensures
        items_view(v@) == Seq::<JsonView>::empty(),
{
    let v: Vec<JsonValue> = Vec::new();
    assert(items_view(v@) == Seq::<JsonView>::empty());
    v
}

/// The entries of a JSON object with nothing in them yet.
fn new_entries() -> (e: Vec<(String, JsonValue)>)
    ensures
        entries_view(e@) == Seq::<(Seq<char>, JsonView)>::empty(),
{
    let e: Vec<(String, JsonValue)> = Vec::new();
    assert(entries_view(e@) == Seq::<(Seq<char>, JsonView)>::empty());
    e
}

/// The empty JSON list.
fn empty_array() -> (r: JsonValue)
    ensures
        r@ == JsonView::Array(Seq::empty()),
{
    JsonValue::Array(new_items())
}

/// The empty JSON object.
fn empty_object() -> (r: JsonValue)
    ensures
        r@ == JsonView::Object(Seq::empty()),
{
    JsonValue::Object(new_entries())
}

/// The parameter schema of `pwd`, before decoration.
pub open spec fn pwd_parameters() -> JsonView {
    JsonView::Object(pwd_entries())
}

/// The entries of the parameter schema of `pwd`.
pub open spec fn pwd_entries() -> Seq<(Seq<char>, JsonView)> {
    Seq::empty()
        .push(("additionalProperties"@, JsonView::Bool(false)))
        .push(("properties"@, JsonView::Object(Seq::empty())))
        .push(("type"@, JsonView::Str("object"@)))
}

/// The parameter schema of `pwd`, before decoration.
pub fn pwd_parameters_value() -> (r: JsonValue)
    ensures
        r@ == pwd_parameters(),
{
    {
        let mut e = new_entries();
        push_entry(&mut e, "additionalProperties", JsonValue::Bool(false));
        push_entry(&mut e, "properties", empty_object());
        push_entry(&mut e, "type", JsonValue::string("object"));
        JsonValue::Object(e)
    }
}

/// The parameter schema of `list_dir`, before decoration.
pub open spec fn list_dir_parameters() -> JsonView {
    JsonView::Object(list_dir_entries())
}

/// The entries of the parameter schema of `list_dir`.
pub open spec fn list_dir_entries() -> Seq<(Seq<char>, JsonView)> {
    Seq::empty()
        .push(("additionalProperties"@, JsonView::Bool(false)))
        .push(("properties"@, JsonView::Object(
            Seq::empty()
                .push(("path"@, JsonView::Object(
                    Seq::empty()
                        .push(("description"@, JsonView::Str("Directory path. Defaults to current directory."@)))
                        .push(("type"@, JsonView::Str("string"@))),
                ))),
        )))
        .push(("type"@, JsonView::Str("object"@)))
}

/// The parameter schema of `list_dir`, before decoration.
pub fn list_dir_parameters_value() -> (r: JsonValue)
    ensures
        r@ == list_dir_parameters(),
{
    {
        let mut e = new_entries();
        push_entry(&mut e, "additionalProperties", JsonValue::Bool(false));
        push_entry(&mut e, "properties", {
            let mut e = new_entries();
            push_entry(&mut e, "path", {
                let mut e = new_entries();
                push_entry(&mut e, "description", JsonValue::string("Directory path. Defaults to current directory."));
                push_entry(&mut e, "type", JsonValue::string("string"));
                JsonValue::Object(e)
            });
            JsonValue::Object(e)
        });
        push_entry(&mut e, "type", JsonValue::string("object"));
        JsonValue::Object(e)
    }
}

/// The parameter schema of `read_file`, before decoration.
pub open spec fn read_file_parameters() -> JsonView {
    JsonView::Object(read_file_entries())
}

/// The entries of the parameter schema of `read_file`.
pub open spec fn read_file_entries() -> Seq<(Seq<char>, JsonView)> {
    Seq::empty()
        .push(("additionalProperties"@, JsonView::Bool(false)))
        .push(("properties"@, JsonView::Object(
            Seq::empty()
                .push(("max_bytes"@, JsonView::Object(
                    Seq::empty()
                        .push(("maximum"@, JsonView::Number(NumberView::PosInt(65536))))
                        .push(("minimum"@, JsonView::Number(NumberView::PosInt(1))))
                        .push(("type"@, JsonView::Str("integer"@))),
                )))
                .push(("path"@, JsonView::Object(
                    Seq::empty()
                        .push(("type"@, JsonView::Str("string"@))),
                ))),
        )))
        .push(("required"@, JsonView::Array(
            Seq::empty()
                .push(JsonView::Str("path"@)),
        )))
        .push(("type"@, JsonView::Str("object"@)))
}

/// The parameter schema of `read_file`, before decoration.
pub fn read_file_parameters_value() -> (r: JsonValue)
    ensures
        r@ == read_file_parameters(),
{
    {
        let mut e = new_entries();
        push_entry(&mut e, "additionalProperties", JsonValue::Bool(false));
        push_entry(&mut e, "properties", {
            let mut e = new_entries();
            push_entry(&mut e, "max_bytes", {
                let mut e = new_entries();
                push_entry(&mut e, "maximum", JsonValue::Number(JsonNumber::PosInt(65536)));
                push_entry(&mut e, "minimum", JsonValue::Number(JsonNumber::PosInt(1)));
                push_entry(&mut e, "type", JsonValue::string("integer"));
                JsonValue::Object(e)
            });
            push_entry(&mut e, "path", {
                let mut e = new_entries();
                push_entry(&mut e, "type", JsonValue::string("string"));
                JsonValue::Object(e)
            });
            JsonValue::Object(e)
        });
        push_entry(&mut e, "required", {
            let mut v = new_items();
            push_item(&mut v, JsonValue::string("path"));
            JsonValue::Array(v)
        });
        push_entry(&mut e, "type", JsonValue::string("object"));
        JsonValue::Object(e)
    }
}

/// The parameter schema of `search_text`, before decoration.
pub open spec fn search_text_parameters() -> JsonView {
    JsonView::Object(search_text_entries())
}

/// The entries of the parameter schema of `search_text`.
pub open spec fn search_text_entries() -> Seq<(Seq<char>, JsonView)> {
    Seq::empty()
        .push(("additionalProperties"@, JsonView::Bool(false)))
        .push(("properties"@, JsonView::Object(
            Seq::empty()
                .push(("max_results"@, JsonView::Object(
                    Seq::empty()
                        .push(("maximum"@, JsonView::Number(NumberView::PosInt(200))))
                        .push(("minimum"@, JsonView::Number(NumberView::PosInt(1))))
                        .push(("type"@, JsonView::Str("integer"@))),
                )))
                .push(("path"@, JsonView::Object(
                    Seq::empty()
                        .push(("description"@, JsonView::Str("File or directory path. Defaults to current directory."@)))
                        .push(("type"@, JsonView::Str("string"@))),
                )))
                .push(("pattern"@, JsonView::Object(
                    Seq::empty()
                        .push(("type"@, JsonView::Str("string"@))),
                ))),
        )))
        .push(("required"@, JsonView::Array(
            Seq::empty()
                .push(JsonView::Str("pattern"@)),
        )))
        .push(("type"@, JsonView::Str("object"@)))
}

/// The parameter schema of `search_text`, before decoration.
pub fn search_text_parameters_value() -> (r: JsonValue)
    ensures
        r@ == search_text_parameters(),
{
    {
        let mut e = new_entries();
        push_entry(&mut e, "additionalProperties", JsonValue::Bool(false));
        push_entry(&mut e, "properties", {
            let mut e = new_entries();
            push_entry(&mut e, "max_results", {
                let mut e = new_entries();
                push_entry(&mut e, "maximum", JsonValue::Number(JsonNumber::PosInt(200)));
                push_entry(&mut e, "minimum", JsonValue::Number(JsonNumber::PosInt(1)));
                push_entry(&mut e, "type", JsonValue::string("integer"));
                JsonValue::Object(e)
            });
            push_entry(&mut e, "path", {
                let mut e = new_entries();
                push_entry(&mut e, "description", JsonValue::string("File or directory path. Defaults to current directory."));
                push_entry(&mut e, "type", JsonValue::string("string"));
                JsonValue::Object(e)
            });
            push_entry(&mut e, "pattern", {
                let mut e = new_entries();
                push_entry(&mut e, "type", JsonValue::string("string"));
                JsonValue::Object(e)
            });
            JsonValue::Object(e)
        });
        push_entry(&mut e, "required", {
            let mut v = new_items();
            push_item(&mut v, JsonValue::string("pattern"));
            JsonValue::Array(v)
        });
        push_entry(&mut e, "type", JsonValue::string("object"));
        JsonValue::Object(e)
    }
}

/// The parameter schema of `shell_exec`, before decoration.
pub open spec fn shell_exec_parameters() -> JsonView {
    JsonView::Object(shell_exec_entries())
}

/// The entries of the parameter schema of `shell_exec`.
pub open spec fn shell_exec_entries() -> Seq<(Seq<char>, JsonView)> {
    Seq::empty()
        .push(("additionalProperties"@, JsonView::Bool(false)))
        .push(("properties"@, JsonView::Object(
            Seq::empty()
                .push(("args"@, JsonView::Object(
                    Seq::empty()
                        .push(("default"@, JsonView::Array(Seq::empty())))
                        .push(("items"@, JsonView::Object(
                            Seq::empty()
                                .push(("type"@, JsonView::Str("string"@))),
                        )))
                        .push(("type"@, JsonView::Str("array"@))),
                )))
                .push(("command"@, JsonView::Object(
                    Seq::empty()
                        .push(("enum"@, JsonView::Array(
                            Seq::empty()
                                .push(JsonView::Str("pwd"@))
                                .push(JsonView::Str("ls"@))
                                .push(JsonView::Str("cat"@))
                                .push(JsonView::Str("head"@))
                                .push(JsonView::Str("tail"@))
                                .push(JsonView::Str("wc"@))
                                .push(JsonView::Str("rg"@))
                                .push(JsonView::Str("find"@))
                                .push(JsonView::Str("date"@))
                                .push(JsonView::Str("uname"@))
                                .push(JsonView::Str("whoami"@))
                                .push(JsonView::Str("df"@))
                                .push(JsonView::Str("du"@))
                                .push(JsonView::Str("ps"@))
                                .push(JsonView::Str("env"@)),
                        )))
                        .push(("type"@, JsonView::Str("string"@))),
                )))
                .push(("timeout_ms"@, JsonView::Object(
                    Seq::empty()
                        .push(("maximum"@, JsonView::Number(NumberView::PosInt(10000))))
                        .push(("minimum"@, JsonView::Number(NumberView::PosInt(100))))
                        .push(("type"@, JsonView::Str("integer"@))),
                ))),
        )))
        .push(("required"@, JsonView::Array(
            Seq::empty()
                .push(JsonView::Str("command"@))
                .push(JsonView::Str("args"@)),
        )))
        .push(("type"@, JsonView::Str("object"@)))
}

/// The parameter schema of `shell_exec`, before decoration.
pub fn shell_exec_parameters_value() -> (r: JsonValue)
    ensures
        r@ == shell_exec_parameters(),
{
    {
        let mut e = new_entries();
        push_entry(&mut e, "additionalProperties", JsonValue::Bool(false));
        push_entry(&mut e, "properties", {
            let mut e = new_entries();
            push_entry(&mut e, "args", {
                let mut e = new_entries();
                push_entry(&mut e, "default", empty_array());
                push_entry(&mut e, "items", {
                    let mut e = new_entries();
                    push_entry(&mut e, "type", JsonValue::string("string"));
                    JsonValue::Object(e)
                });
                push_entry(&mut e, "type", JsonValue::string("array"));
                JsonValue::Object(e)
            });
            push_entry(&mut e, "command", {
                let mut e = new_entries();
                push_entry(&mut e, "enum", {
                    let mut v = new_items();
                    push_item(&mut v, JsonValue::string("pwd"));
                    push_item(&mut v, JsonValue::string("ls"));
                    push_item(&mut v, JsonValue::string("cat"));
                    push_item(&mut v, JsonValue::string("head"));
                    push_item(&mut v, JsonValue::string("tail"));
                    push_item(&mut v, JsonValue::string("wc"));
                    push_item(&mut v, JsonValue::string("rg"));
                    push_item(&mut v, JsonValue::string("find"));
                    push_item(&mut v, JsonValue::string("date"));
                    push_item(&mut v, JsonValue::string("uname"));
                    push_item(&mut v, JsonValue::string("whoami"));
                    push_item(&mut v, JsonValue::string("df"));
                    push_item(&mut v, JsonValue::string("du"));
                    push_item(&mut v, JsonValue::string("ps"));
                    push_item(&mut v, JsonValue::string("env"));
                    JsonValue::Array(v)
                });
                push_entry(&mut e, "type", JsonValue::string("string"));
                JsonValue::Object(e)
            });
            push_entry(&mut e, "timeout_ms", {
                let mut e = new_entries();
                push_entry(&mut e, "maximum", JsonValue::Number(JsonNumber::PosInt(10000)));
                push_entry(&mut e, "minimum", JsonValue::Number(JsonNumber::PosInt(100)));
                push_entry(&mut e, "type", JsonValue::string("integer"));
                JsonValue::Object(e)
            });
            JsonValue::Object(e)
        });
        push_entry(&mut e, "required", {
            let mut v = new_items();
            push_item(&mut v, JsonValue::string("command"));
            push_item(&mut v, JsonValue::string("args"));
            JsonValue::Array(v)
        });
        push_entry(&mut e, "type", JsonValue::string("object"));
        JsonValue::Object(e)
    }
}

/// The parameter schema of `smart_home_control_speaker`, before decoration.
pub open spec fn smart_home_control_speaker_parameters() -> JsonView {
    JsonView::Object(smart_home_control_speaker_entries())
}

/// The entries of the parameter schema of `smart_home_control_speaker`.
pub open spec fn smart_home_control_speaker_entries() -> Seq<(Seq<char>, JsonView)> {
    Seq::empty()
        .push(("additionalProperties"@, JsonView::Bool(false)))
        .push(("properties"@, JsonView::Object(
            Seq::empty()
                .push(("action"@, JsonView::Object(
                    Seq::empty()
                        .push(("description"@, JsonView::Str("音量调大、调小、静音或设置指定音量。"@)))
                        .push(("enum"@, JsonView::Array(
                            Seq::empty()
                                .push(JsonView::Str("increase_volume"@))
                                .push(JsonView::Str("decrease_volume"@))
                                .push(JsonView::Str("mute"@))
                                .push(JsonView::Str("set_volume"@)),
                        )))
                        .push(("type"@, JsonView::Str("string"@))),
                )))
                .push(("delta_percent"@, JsonView::Object(
                    Seq::empty()
                        .push(("description"@, JsonView::Str("相对调节百分比。increase_volume/decrease_volume 必须填写；用户未给数值时默认填 10；百分之二十填 20。"@)))
                        .push(("maximum"@, JsonView::Number(NumberView::PosInt(100))))
                        .push(("minimum"@, JsonView::Number(NumberView::PosInt(0))))
                        .push(("type"@, JsonView::Str("integer"@))),
                )))
                .push(("device_name"@, JsonView::Object(
                    Seq::empty()
                        .push(("description"@, JsonView::Str("设备名称或别名，例如“扬声器”“音箱”“音响”“播放器”“NAS”。用户原话出现设备名或别名时必须原样填写；未说明时可省略。"@)))
                        .push(("type"@, JsonView::Str("string"@))),
                )))
                .push(("floor"@, JsonView::Object(
                    Seq::empty()
                        .push(("description"@, JsonView::Str("楼层。用户原话出现楼层时必须填写；未说明时省略，不要编造。"@)))
                        .push(("enum"@, JsonView::Array(
                            Seq::empty()
                                .push(JsonView::Str("一楼"@))
                                .push(JsonView::Str("二楼"@))
                                .push(JsonView::Str("三楼"@))
                                .push(JsonView::Str("四楼"@))
                                .push(JsonView::Str("五楼"@))
                                .push(JsonView::Str("阁楼"@))
                                .push(JsonView::Str("地下室"@))
                                .push(JsonView::Str("夹层"@))
                                .push(JsonView::Str("屋顶花园"@))
                                .push(JsonView::Str("楼顶"@))
                                .push(JsonView::Str("顶楼"@))
                                .push(JsonView::Str("负一楼"@))
                                .push(JsonView::Str("地下一层"@)),
                        )))
                        .push(("type"@, JsonView::Str("string"@))),
                )))
                .push(("room"@, JsonView::Object(
                    Seq::empty()
                        .push(("description"@, JsonView::Str("房间。用户原话出现房间时必须填写；全屋控制时使用“全屋”；未说明时省略。"@)))
                        .push(("enum"@, JsonView::Array(
                            Seq::empty()
                                .push(JsonView::Str("客厅"@))
                                .push(JsonView::Str("餐厅"@))
                                .push(JsonView::Str("主卧"@))
                                .push(JsonView::Str("次卧"@))
                                .push(JsonView::Str("儿童房"@))
                                .push(JsonView::Str("长辈房"@))
                                .push(JsonView::Str("书房"@))
                                .push(JsonView::Str("厨房"@))
                                .push(JsonView::Str("卫生间"@))
                                .push(JsonView::Str("阳台"@))
                                .push(JsonView::Str("衣帽间"@))
                                .push(JsonView::Str("玄关"@))
                                .push(JsonView::Str("走廊"@))
                                .push(JsonView::Str("储藏室"@))
                                .push(JsonView::Str("车库"@))
                                .push(JsonView::Str("健身房"@))
                                .push(JsonView::Str("影音室"@))
                                .push(JsonView::Str("娱乐室"@))
                                .push(JsonView::Str("洗衣房"@))
                                .push(JsonView::Str("茶室"@))
                                .push(JsonView::Str("棋牌室"@))
                                .push(JsonView::Str("瑜伽室"@))
                                .push(JsonView::Str("宠物房"@))
                                .push(JsonView::Str("停车场"@))
                                .push(JsonView::Str("电竞房"@))
                                .push(JsonView::Str("全屋"@)),
                        )))
                        .push(("type"@, JsonView::Str("string"@))),
                )))
                .push(("volume_percent"@, JsonView::Object(
                    Seq::empty()
                        .push(("description"@, JsonView::Str("目标音量百分比。mute 必须显式填 0；set_volume 必须填写；一半填 50。"@)))
                        .push(("maximum"@, JsonView::Number(NumberView::PosInt(100))))
                        .push(("minimum"@, JsonView::Number(NumberView::PosInt(0))))
                        .push(("type"@, JsonView::Str("integer"@))),
                ))),
        )))
        .push(("required"@, JsonView::Array(
            Seq::empty()
                .push(JsonView::Str("action"@)),
        )))
        .push(("type"@, JsonView::Str("object"@)))
}

/// The parameter schema of `smart_home_control_speaker`, before decoration.
pub fn smart_home_control_speaker_parameters_value() -> (r: JsonValue)
    ensures
        r@ == smart_home_control_speaker_parameters(),
{
    {
        let mut e = new_entries();
        push_entry(&mut e, "additionalProperties", JsonValue::Bool(false));
        push_entry(&mut e, "properties", {
            let mut e = new_entries();
            push_entry(&mut e, "action", {
                let mut e = new_entries();
                push_entry(&mut e, "description", JsonValue::string("音量调大、调小、静音或设置指定音量。"));
                push_entry(&mut e, "enum", {
                    let mut v = new_items();
                    push_item(&mut v, JsonValue::string("increase_volume"));
                    push_item(&mut v, JsonValue::string("decrease_volume"));
                    push_item(&mut v, JsonValue::string("mute"));
                    push_item(&mut v, JsonValue::string("set_volume"));
                    JsonValue::Array(v)
                });
                push_entry(&mut e, "type", JsonValue::string("string"));
                JsonValue::Object(e)
            });
            push_entry(&mut e, "delta_percent", {
                let mut e = new_entries();
                push_entry(&mut e, "description", JsonValue::string("相对调节百分比。increase_volume/decrease_volume 必须填写；用户未给数值时默认填 10；百分之二十填 20。"));
                push_entry(&mut e, "maximum", JsonValue::Number(JsonNumber::PosInt(100)));
                push_entry(&mut e, "minimum", JsonValue::Number(JsonNumber::PosInt(0)));
                push_entry(&mut e, "type", JsonValue::string("integer"));
                JsonValue::Object(e)
            });
            push_entry(&mut e, "device_name", {
                let mut e = new_entries();
                push_entry(&mut e, "description", JsonValue::string("设备名称或别名，例如“扬声器”“音箱”“音响”“播放器”“NAS”。用户原话出现设备名或别名时必须原样填写；未说明时可省略。"));
                push_entry(&mut e, "type", JsonValue::string("string"));
                JsonValue::Object(e)
            });
            push_entry(&mut e, "floor", {
                let mut e = new_entries();
                push_entry(&mut e, "description", JsonValue::string("楼层。用户原话出现楼层时必须填写；未说明时省略，不要编造。"));
                push_entry(&mut e, "enum", {
                    let mut v = new_items();
                    push_item(&mut v, JsonValue::string("一楼"));
                    push_item(&mut v, JsonValue::string("二楼"));
                    push_item(&mut v, JsonValue::string("三楼"));
                    push_item(&mut v, JsonValue::string("四楼"));
                    push_item(&mut v, JsonValue::string("五楼"));
                    push_item(&mut v, JsonValue::string("阁楼"));
                    push_item(&mut v, JsonValue::string("地下室"));
                    push_item(&mut v, JsonValue::string("夹层"));
                    push_item(&mut v, JsonValue::string("屋顶花园"));
                    push_item(&mut v, JsonValue::string("楼顶"));
                    push_item(&mut v, JsonValue::string("顶楼"));
                    push_item(&mut v, JsonValue::string("负一楼"));
                    push_item(&mut v, JsonValue::string("地下一层"));
                    JsonValue::Array(v)
                });
                push_entry(&mut e, "type", JsonValue::string("string"));
                JsonValue::Object(e)
            });
            push_entry(&mut e, "room", {
                let mut e = new_entries();
                push_entry(&mut e, "description", JsonValue::string("房间。用户原话出现房间时必须填写；全屋控制时使用“全屋”；未说明时省略。"));
                push_entry(&mut e, "enum", {
                    let mut v = new_items();
                    push_item(&mut v, JsonValue::string("客厅"));
                    push_item(&mut v, JsonValue::string("餐厅"));
                    push_item(&mut v, JsonValue::string("主卧"));
                    push_item(&mut v, JsonValue::string("次卧"));
                    push_item(&mut v, JsonValue::string("儿童房"));
                    push_item(&mut v, JsonValue::string("长辈房"));
                    push_item(&mut v, JsonValue::string("书房"));
                    push_item(&mut v, JsonValue::string("厨房"));
                    push_item(&mut v, JsonValue::string("卫生间"));
                    push_item(&mut v, JsonValue::string("阳台"));
                    push_item(&mut v, JsonValue::string("衣帽间"));
                    push_item(&mut v, JsonValue::string("玄关"));
                    push_item(&mut v, JsonValue::string("走廊"));
                    push_item(&mut v, JsonValue::string("储藏室"));
                    push_item(&mut v, JsonValue::string("车库"));
                    push_item(&mut v, JsonValue::string("健身房"));
                    push_item(&mut v, JsonValue::string("影音室"));
                    push_item(&mut v, JsonValue::string("娱乐室"));
                    push_item(&mut v, JsonValue::string("洗衣房"));
                    push_item(&mut v, JsonValue::string("茶室"));
                    push_item(&mut v, JsonValue::string("棋牌室"));
                    push_item(&mut v, JsonValue::string("瑜伽室"));
                    push_item(&mut v, JsonValue::string("宠物房"));
                    push_item(&mut v, JsonValue::string("停车场"));
                    push_item(&mut v, JsonValue::string("电竞房"));
                    push_item(&mut v, JsonValue::string("全屋"));
                    JsonValue::Array(v)
                });
                push_entry(&mut e, "type", JsonValue::string("string"));
                JsonValue::Object(e)
            });
            push_entry(&mut e, "volume_percent", {
                let mut e = new_entries();
                push_entry(&mut e, "description", JsonValue::string("目标音量百分比。mute 必须显式填 0；set_volume 必须填写；一半填 50。"));
                push_entry(&mut e, "maximum", JsonValue::Number(JsonNumber::PosInt(100)));
                push_entry(&mut e, "minimum", JsonValue::Number(JsonNumber::PosInt(0)));
                push_entry(&mut e, "type", JsonValue::string("integer"));
                JsonValue::Object(e)
            });
            JsonValue::Object(e)
        });
        push_entry(&mut e, "required", {
            let mut v = new_items();
            push_item(&mut v, JsonValue::string("action"));
            JsonValue::Array(v)
        });
        push_entry(&mut e, "type", JsonValue::string("object"));
        JsonValue::Object(e)
    }
}

/// The parameter schema of `smart_home_control_light`, before decoration.
pub open spec fn smart_home_control_light_parameters() -> JsonView {
    JsonView::Object(smart_home_control_light_entries())
}

/// The entries of the parameter schema of `smart_home_control_light`.
pub open spec fn smart_home_control_light_entries() -> Seq<(Seq<char>, JsonView)> {
    Seq::empty()
        .push(("additionalProperties"@, JsonView::Bool(false)))
        .push(("properties"@, JsonView::Object(
            Seq::empty()
                .push(("action"@, JsonView::Object(
                    Seq::empty()
                        .push(("description"@, JsonView::Str("灯光开关、亮度、色温、光色或颜色控制动作。"@)))
                        .push(("enum"@, JsonView::Array(
                            Seq::empty()
                                .push(JsonView::Str("turn_on"@))
                                .push(JsonView::Str("turn_off"@))
                                .push(JsonView::Str("increase_brightness"@))
                                .push(JsonView::Str("decrease_brightness"@))
                                .push(JsonView::Str("set_brightness"@))
                                .push(JsonView::Str("increase_color_temperature"@))
                                .push(JsonView::Str("decrease_color_temperature"@))
                                .push(JsonView::Str("set_color_temperature"@))
                                .push(JsonView::Str("set_light_tone"@))
                                .push(JsonView::Str("set_color"@)),
                        )))
                        .push(("type"@, JsonView::Str("string"@))),
                )))
                .push(("brightness_percent"@, JsonView::Object(
                    Seq::empty()
                        .push(("description"@, JsonView::Str("目标亮度百分比。set_brightness 必须填写；一半填 50。"@)))
                        .push(("maximum"@, JsonView::Number(NumberView::PosInt(100))))
                        .push(("minimum"@, JsonView::Number(NumberView::PosInt(0))))
                        .push(("type"@, JsonView::Str("integer"@))),
                )))
                .push(("color_name"@, JsonView::Object(
                    Seq::empty()
                        .push(("description"@, JsonView::Str("目标颜色名称。"@)))
                        .push(("enum"@, JsonView::Array(
                            Seq::empty()
                                .push(JsonView::Str("红色"@))
                                .push(JsonView::Str("橙色"@))
                                .push(JsonView::Str("黄色"@))
                                .push(JsonView::Str("绿色"@))
                                .push(JsonView::Str("青色"@))
                                .push(JsonView::Str("蓝色"@))
                                .push(JsonView::Str("紫色"@)),
                        )))
                        .push(("type"@, JsonView::Str("string"@))),
                )))
                .push(("color_temperature_kelvin"@, JsonView::Object(
                    Seq::empty()
                        .push(("description"@, JsonView::Str("目标色温 K，必须填写完整 K 数值，不要除以 10。3000K 填 3000，4000K 填 4000，6000K 填 6000；不要写 300/400/600。"@)))
                        .push(("maximum"@, JsonView::Number(NumberView::PosInt(6000))))
                        .push(("minimum"@, JsonView::Number(NumberView::PosInt(1000))))
                        .push(("type"@, JsonView::Str("integer"@))),
                )))
                .push(("delta_kelvin"@, JsonView::Object(
                    Seq::empty()
                        .push(("description"@, JsonView::Str("色温相对调节值，必须填写完整 K 数值，不要除以 10。普通调冷/调暖默认填 500；调高 1000K 填 1000；上调 1200K 填 1200。"@)))
                        .push(("maximum"@, JsonView::Number(NumberView::PosInt(6000))))
                        .push(("minimum"@, JsonView::Number(NumberView::PosInt(0))))
                        .push(("type"@, JsonView::Str("integer"@))),
                )))
                .push(("delta_percent"@, JsonView::Object(
                    Seq::empty()
                        .push(("description"@, JsonView::Str("亮度相对调节百分比。increase_brightness/decrease_brightness 必须填写；用户未给数值时默认填 20；百分之三十填 30。"@)))
                        .push(("maximum"@, JsonView::Number(NumberView::PosInt(100))))
                        .push(("minimum"@, JsonView::Number(NumberView::PosInt(0))))
                        .push(("type"@, JsonView::Str("integer"@))),
                )))
                .push(("device_name"@, JsonView::Object(
                    Seq::empty()
                        .push(("description"@, JsonView::Str("灯具名称，例如灯、主灯、吸顶灯、筒灯、灯带、床头灯、台灯、夜灯。用户原话出现灯具名称时必须填写，不要省略。"@)))
                        .push(("enum"@, JsonView::Array(
                            Seq::empty()
                                .push(JsonView::Str("灯"@))
                                .push(JsonView::Str("主灯"@))
                                .push(JsonView::Str("吸顶灯"@))
                                .push(JsonView::Str("筒灯"@))
                                .push(JsonView::Str("射灯"@))
                                .push(JsonView::Str("灯带"@))
                                .push(JsonView::Str("彩光灯带"@))
                                .push(JsonView::Str("彩光灯"@))
                                .push(JsonView::Str("客厅灯"@))
                                .push(JsonView::Str("卧室灯"@))
                                .push(JsonView::Str("灯泡"@))
                                .push(JsonView::Str("球泡灯"@))
                                .push(JsonView::Str("色温灯"@))
                                .push(JsonView::Str("调光灯"@))
                                .push(JsonView::Str("床头灯"@))
                                .push(JsonView::Str("台灯"@))
                                .push(JsonView::Str("夜灯"@)),
                        )))
                        .push(("type"@, JsonView::Str("string"@))),
                )))
                .push(("floor"@, JsonView::Object(
                    Seq::empty()
                        .push(("description"@, JsonView::Str("楼层。用户原话出现楼层时必须填写；未说明时省略，不要编造。"@)))
                        .push(("enum"@, JsonView::Array(
                            Seq::empty()
                                .push(JsonView::Str("一楼"@))
                                .push(JsonView::Str("二楼"@))
                                .push(JsonView::Str("三楼"@))
                                .push(JsonView::Str("四楼"@))
                                .push(JsonView::Str("五楼"@))
                                .push(JsonView::Str("阁楼"@))
                                .push(JsonView::Str("地下室"@))
                                .push(JsonView::Str("夹层"@))
                                .push(JsonView::Str("屋顶花园"@))
                                .push(JsonView::Str("楼顶"@))
                                .push(JsonView::Str("顶楼"@))
                                .push(JsonView::Str("负一楼"@))
                                .push(JsonView::Str("地下一层"@)),
                        )))
                        .push(("type"@, JsonView::Str("string"@))),
                )))
                .push(("light_tone"@, JsonView::Object(
                    Seq::empty()
                        .push(("description"@, JsonView::Str("用户要求调成暖光、中性光、自然光、白光或冷光时使用，并同时填写完整 color_temperature_kelvin：warm=3000，neutral/natural=4000，white/cool=6000。"@)))
                        .push(("enum"@, JsonView::Array(
                            Seq::empty()
                                .push(JsonView::Str("warm"@))
                                .push(JsonView::Str("neutral"@))
                                .push(JsonView::Str("natural"@))
                                .push(JsonView::Str("white"@))
                                .push(JsonView::Str("cool"@)),
                        )))
                        .push(("type"@, JsonView::Str("string"@))),
                )))
                .push(("rgb"@, JsonView::Object(
                    Seq::empty()
                        .push(("additionalProperties"@, JsonView::Bool(false)))
                        .push(("description"@, JsonView::Str("目标 RGB 颜色值。"@)))
                        .push(("properties"@, JsonView::Object(
                            Seq::empty()
                                .push(("b"@, JsonView::Object(
                                    Seq::empty()
                                        .push(("maximum"@, JsonView::Number(NumberView::PosInt(255))))
                                        .push(("minimum"@, JsonView::Number(NumberView::PosInt(0))))
                                        .push(("type"@, JsonView::Str("integer"@))),
                                )))
                                .push(("g"@, JsonView::Object(
                                    Seq::empty()
                                        .push(("maximum"@, JsonView::Number(NumberView::PosInt(255))))
                                        .push(("minimum"@, JsonView::Number(NumberView::PosInt(0))))
                                        .push(("type"@, JsonView::Str("integer"@))),
                                )))
                                .push(("r"@, JsonView::Object(
                                    Seq::empty()
                                        .push(("maximum"@, JsonView::Number(NumberView::PosInt(255))))
                                        .push(("minimum"@, JsonView::Number(NumberView::PosInt(0))))
                                        .push(("type"@, JsonView::Str("integer"@))),
                                ))),
                        )))
                        .push(("required"@, JsonView::Array(
                            Seq::empty()
                                .push(JsonView::Str("r"@))
                                .push(JsonView::Str("g"@))
                                .push(JsonView::Str("b"@)),
                        )))
                        .push(("type"@, JsonView::Str("object"@))),
                )))
                .push(("room"@, JsonView::Object(
                    Seq::empty()
                        .push(("description"@, JsonView::Str("房间。用户原话出现房间时必须填写；全屋控制时使用“全屋”；未说明时省略。"@)))
                        .push(("enum"@, JsonView::Array(
                            Seq::empty()
                                .push(JsonView::Str("客厅"@))
                                .push(JsonView::Str("餐厅"@))
                                .push(JsonView::Str("主卧"@))
                                .push(JsonView::Str("次卧"@))
                                .push(JsonView::Str("儿童房"@))
                                .push(JsonView::Str("长辈房"@))
                                .push(JsonView::Str("书房"@))
                                .push(JsonView::Str("厨房"@))
                                .push(JsonView::Str("卫生间"@))
                                .push(JsonView::Str("阳台"@))
                                .push(JsonView::Str("衣帽间"@))
                                .push(JsonView::Str("玄关"@))
                                .push(JsonView::Str("走廊"@))
                                .push(JsonView::Str("储藏室"@))
                                .push(JsonView::Str("车库"@))
                                .push(JsonView::Str("健身房"@))
                                .push(JsonView::Str("影音室"@))
                                .push(JsonView::Str("娱乐室"@))
                                .push(JsonView::Str("洗衣房"@))
                                .push(JsonView::Str("茶室"@))
                                .push(JsonView::Str("棋牌室"@))
                                .push(JsonView::Str("瑜伽室"@))
                                .push(JsonView::Str("宠物房"@))
                                .push(JsonView::Str("停车场"@))
                                .push(JsonView::Str("电竞房"@))
                                .push(JsonView::Str("全屋"@)),
                        )))
                        .push(("type"@, JsonView::Str("string"@))),
                ))),
        )))
        .push(("required"@, JsonView::Array(
            Seq::empty()
                .push(JsonView::Str("action"@)),
        )))
        .push(("type"@, JsonView::Str("object"@)))
}

/// The parameter schema of `smart_home_control_light`, before decoration.
pub fn smart_home_control_light_parameters_value() -> (r: JsonValue)
    ensures
        r@ == smart_home_control_light_parameters(),
{
    {
        let mut e = new_entries();
        push_entry(&mut e, "additionalProperties", JsonValue::Bool(false));
        push_entry(&mut e, "properties", {
            let mut e = new_entries();
            push_entry(&mut e, "action", {
                let mut e = new_entries();
                push_entry(&mut e, "description", JsonValue::string("灯光开关、亮度、色温、光色或颜色控制动作。"));
                push_entry(&mut e, "enum", {
                    let mut v = new_items();
                    push_item(&mut v, JsonValue::string("turn_on"));
                    push_item(&mut v, JsonValue::string("turn_off"));
                    push_item(&mut v, JsonValue::string("increase_brightness"));
                    push_item(&mut v, JsonValue::string("decrease_brightness"));
                    push_item(&mut v, JsonValue::string("set_brightness"));
                    push_item(&mut v, JsonValue::string("increase_color_temperature"));
                    push_item(&mut v, JsonValue::string("decrease_color_temperature"));
                    push_item(&mut v, JsonValue::string("set_color_temperature"));
                    push_item(&mut v, JsonValue::string("set_light_tone"));
                    push_item(&mut v, JsonValue::string("set_color"));
                    JsonValue::Array(v)
                });
                push_entry(&mut e, "type", JsonValue::string("string"));
                JsonValue::Object(e)
            });
            push_entry(&mut e, "brightness_percent", {
                let mut e = new_entries();
                push_entry(&mut e, "description", JsonValue::string("目标亮度百分比。set_brightness 必须填写；一半填 50。"));
                push_entry(&mut e, "maximum", JsonValue::Number(JsonNumber::PosInt(100)));
                push_entry(&mut e, "minimum", JsonValue::Number(JsonNumber::PosInt(0)));
                push_entry(&mut e, "type", JsonValue::string("integer"));
                JsonValue::Object(e)
            });
            push_entry(&mut e, "color_name", {
                let mut e = new_entries();
                push_entry(&mut e, "description", JsonValue::string("目标颜色名称。"));
                push_entry(&mut e, "enum", {
                    let mut v = new_items();
                    push_item(&mut v, JsonValue::string("红色"));
                    push_item(&mut v, JsonValue::string("橙色"));
                    push_item(&mut v, JsonValue::string("黄色"));
                    push_item(&mut v, JsonValue::string("绿色"));
                    push_item(&mut v, JsonValue::string("青色"));
                    push_item(&mut v, JsonValue::string("蓝色"));
                    push_item(&mut v, JsonValue::string("紫色"));
                    JsonValue::Array(v)
                });
                push_entry(&mut e, "type", JsonValue::string("string"));
                JsonValue::Object(e)
            });
            push_entry(&mut e, "color_temperature_kelvin", {
                let mut e = new_entries();
                push_entry(&mut e, "description", JsonValue::string("目标色温 K，必须填写完整 K 数值，不要除以 10。3000K 填 3000，4000K 填 4000，6000K 填 6000；不要写 300/400/600。"));
                push_entry(&mut e, "maximum", JsonValue::Number(JsonNumber::PosInt(6000)));
                push_entry(&mut e, "minimum", JsonValue::Number(JsonNumber::PosInt(1000)));
                push_entry(&mut e, "type", JsonValue::string("integer"));
                JsonValue::Object(e)
            });
            push_entry(&mut e, "delta_kelvin", {
                let mut e = new_entries();
                push_entry(&mut e, "description", JsonValue::string("色温相对调节值，必须填写完整 K 数值，不要除以 10。普通调冷/调暖默认填 500；调高 1000K 填 1000；上调 1200K 填 1200。"));
                push_entry(&mut e, "maximum", JsonValue::Number(JsonNumber::PosInt(6000)));
                push_entry(&mut e, "minimum", JsonValue::Number(JsonNumber::PosInt(0)));
                push_entry(&mut e, "type", JsonValue::string("integer"));
                JsonValue::Object(e)
            });
            push_entry(&mut e, "delta_percent", {
                let mut e = new_entries();
                push_entry(&mut e, "description", JsonValue::string("亮度相对调节百分比。increase_brightness/decrease_brightness 必须填写；用户未给数值时默认填 20；百分之三十填 30。"));
                push_entry(&mut e, "maximum", JsonValue::Number(JsonNumber::PosInt(100)));
                push_entry(&mut e, "minimum", JsonValue::Number(JsonNumber::PosInt(0)));
                push_entry(&mut e, "type", JsonValue::string("integer"));
                JsonValue::Object(e)
            });
            push_entry(&mut e, "device_name", {
                let mut e = new_entries();
                push_entry(&mut e, "description", JsonValue::string("灯具名称，例如灯、主灯、吸顶灯、筒灯、灯带、床头灯、台灯、夜灯。用户原话出现灯具名称时必须填写，不要省略。"));
                push_entry(&mut e, "enum", {
                    let mut v = new_items();
                    push_item(&mut v, JsonValue::string("灯"));
                    push_item(&mut v, JsonValue::string("主灯"));
                    push_item(&mut v, JsonValue::string("吸顶灯"));
                    push_item(&mut v, JsonValue::string("筒灯"));
                    push_item(&mut v, JsonValue::string("射灯"));
                    push_item(&mut v, JsonValue::string("灯带"));
                    push_item(&mut v, JsonValue::string("彩光灯带"));
                    push_item(&mut v, JsonValue::string("彩光灯"));
                    push_item(&mut v, JsonValue::string("客厅灯"));
                    push_item(&mut v, JsonValue::string("卧室灯"));
                    push_item(&mut v, JsonValue::string("灯泡"));
                    push_item(&mut v, JsonValue::string("球泡灯"));
                    push_item(&mut v, JsonValue::string("色温灯"));
                    push_item(&mut v, JsonValue::string("调光灯"));
                    push_item(&mut v, JsonValue::string("床头灯"));
                    push_item(&mut v, JsonValue::string("台灯"));
                    push_item(&mut v, JsonValue::string("夜灯"));
                    JsonValue::Array(v)
                });
                push_entry(&mut e, "type", JsonValue::string("string"));
                JsonValue::Object(e)
            });
            push_entry(&mut e, "floor", {
                let mut e = new_entries();
                push_entry(&mut e, "description", JsonValue::string("楼层。用户原话出现楼层时必须填写；未说明时省略，不要编造。"));
                push_entry(&mut e, "enum", {
                    let mut v = new_items();
                    push_item(&mut v, JsonValue::string("一楼"));
                    push_item(&mut v, JsonValue::string("二楼"));
                    push_item(&mut v, JsonValue::string("三楼"));
                    push_item(&mut v, JsonValue::string("四楼"));
                    push_item(&mut v, JsonValue::string("五楼"));
                    push_item(&mut v, JsonValue::string("阁楼"));
                    push_item(&mut v, JsonValue::string("地下室"));
                    push_item(&mut v, JsonValue::string("夹层"));
                    push_item(&mut v, JsonValue::string("屋顶花园"));
                    push_item(&mut v, JsonValue::string("楼顶"));
                    push_item(&mut v, JsonValue::string("顶楼"));
                    push_item(&mut v, JsonValue::string("负一楼"));
                    push_item(&mut v, JsonValue::string("地下一层"));
                    JsonValue::Array(v)
                });
                push_entry(&mut e, "type", JsonValue::string("string"));
                JsonValue::Object(e)
            });
            push_entry(&mut e, "light_tone", {
                let mut e = new_entries();
                push_entry(&mut e, "description", JsonValue::string("用户要求调成暖光、中性光、自然光、白光或冷光时使用，并同时填写完整 color_temperature_kelvin：warm=3000，neutral/natural=4000，white/cool=6000。"));
                push_entry(&mut e, "enum", {
                    let mut v = new_items();
                    push_item(&mut v, JsonValue::string("warm"));
                    push_item(&mut v, JsonValue::string("neutral"));
                    push_item(&mut v, JsonValue::string("natural"));
                    push_item(&mut v, JsonValue::string("white"));
                    push_item(&mut v, JsonValue::string("cool"));
                    JsonValue::Array(v)
                });
                push_entry(&mut e, "type", JsonValue::string("string"));
                JsonValue::Object(e)
            });
            push_entry(&mut e, "rgb", {
                let mut e = new_entries();
                push_entry(&mut e, "additionalProperties", JsonValue::Bool(false));
                push_entry(&mut e, "description", JsonValue::string("目标 RGB 颜色值。"));
                push_entry(&mut e, "properties", {
                    let mut e = new_entries();
                    push_entry(&mut e, "b", {
                        let mut e = new_entries();
                        push_entry(&mut e, "maximum", JsonValue::Number(JsonNumber::PosInt(255)));
                        push_entry(&mut e, "minimum", JsonValue::Number(JsonNumber::PosInt(0)));
                        push_entry(&mut e, "type", JsonValue::string("integer"));
                        JsonValue::Object(e)
                    });
                    push_entry(&mut e, "g", {
                        let mut e = new_entries();
                        push_entry(&mut e, "maximum", JsonValue::Number(JsonNumber::PosInt(255)));
                        push_entry(&mut e, "minimum", JsonValue::Number(JsonNumber::PosInt(0)));
                        push_entry(&mut e, "type", JsonValue::string("integer"));
                        JsonValue::Object(e)
                    });
                    push_entry(&mut e, "r", {
                        let mut e = new_entries();
                        push_entry(&mut e, "maximum", JsonValue::Number(JsonNumber::PosInt(255)));
                        push_entry(&mut e, "minimum", JsonValue::Number(JsonNumber::PosInt(0)));
                        push_entry(&mut e, "type", JsonValue::string("integer"));
                        JsonValue::Object(e)
                    });
                    JsonValue::Object(e)
                });
                push_entry(&mut e, "required", {
                    let mut v = new_items();
                    push_item(&mut v, JsonValue::string("r"));
                    push_item(&mut v, JsonValue::string("g"));
                    push_item(&mut v, JsonValue::string("b"));
                    JsonValue::Array(v)
                });
                push_entry(&mut e, "type", JsonValue::string("object"));
                JsonValue::Object(e)
            });
            push_entry(&mut e, "room", {
                let mut e = new_entries();
                push_entry(&mut e, "description", JsonValue::string("房间。用户原话出现房间时必须填写；全屋控制时使用“全屋”；未说明时省略。"));
                push_entry(&mut e, "enum", {
                    let mut v = new_items();
                    push_item(&mut v, JsonValue::string("客厅"));
                    push_item(&mut v, JsonValue::string("餐厅"));
                    push_item(&mut v, JsonValue::string("主卧"));
                    push_item(&mut v, JsonValue::string("次卧"));
                    push_item(&mut v, JsonValue::string("儿童房"));
                    push_item(&mut v, JsonValue::string("长辈房"));
                    push_item(&mut v, JsonValue::string("书房"));
                    push_item(&mut v, JsonValue::string("厨房"));
                    push_item(&mut v, JsonValue::string("卫生间"));
                    push_item(&mut v, JsonValue::string("阳台"));
                    push_item(&mut v, JsonValue::string("衣帽间"));
                    push_item(&mut v, JsonValue::string("玄关"));
                    push_item(&mut v, JsonValue::string("走廊"));
                    push_item(&mut v, JsonValue::string("储藏室"));
                    push_item(&mut v, JsonValue::string("车库"));
                    push_item(&mut v, JsonValue::string("健身房"));
                    push_item(&mut v, JsonValue::string("影音室"));
                    push_item(&mut v, JsonValue::string("娱乐室"));
                    push_item(&mut v, JsonValue::string("洗衣房"));
                    push_item(&mut v, JsonValue::string("茶室"));
                    push_item(&mut v, JsonValue::string("棋牌室"));
                    push_item(&mut v, JsonValue::string("瑜伽室"));
                    push_item(&mut v, JsonValue::string("宠物房"));
                    push_item(&mut v, JsonValue::string("停车场"));
                    push_item(&mut v, JsonValue::string("电竞房"));
                    push_item(&mut v, JsonValue::string("全屋"));
                    JsonValue::Array(v)
                });
                push_entry(&mut e, "type", JsonValue::string("string"));
                JsonValue::Object(e)
            });
            JsonValue::Object(e)
        });
        push_entry(&mut e, "required", {
            let mut v = new_items();
            push_item(&mut v, JsonValue::string("action"));
            JsonValue::Array(v)
        });
        push_entry(&mut e, "type", JsonValue::string("object"));
        JsonValue::Object(e)
    }
}

/// The parameter schema of `smart_home_control_light_temperature`, before decoration.
pub open spec fn smart_home_control_light_temperature_parameters() -> JsonView {
    JsonView::Object(smart_home_control_light_temperature_entries())
}

/// The entries of the parameter schema of `smart_home_control_light_temperature`.
pub open spec fn smart_home_control_light_temperature_entries() -> Seq<(Seq<char>, JsonView)> {
    Seq::empty()
        .push(("additionalProperties"@, JsonView::Bool(false)))
        .push(("properties"@, JsonView::Object(
            Seq::empty()
                .push(("action"@, JsonView::Object(
                    Seq::empty()
                        .push(("description"@, JsonView::Str("色温调冷/调白/调高/增加使用 increase_color_temperature；色温调暖/调黄/调低/降低使用 decrease_color_temperature；设置指定色温使用 set_color_temperature；调成暖光/中性光/自然光/白光/冷光使用 set_light_tone。"@)))
                        .push(("enum"@, JsonView::Array(
                            Seq::empty()
                                .push(JsonView::Str("increase_color_temperature"@))
                                .push(JsonView::Str("decrease_color_temperature"@))
                                .push(JsonView::Str("set_color_temperature"@))
                                .push(JsonView::Str("set_light_tone"@)),
                        )))
                        .push(("type"@, JsonView::Str("string"@))),
                )))
                .push(("color_temperature_kelvin"@, JsonView::Object(
                    Seq::empty()
                        .push(("description"@, JsonView::Str("目标色温 K。3000K 填 3000，3500K 填 3500，4000K 填 4000，4500K 填 4500，5000K 填 5000，6000K 填 6000。不要写 300/350/400/450/500/600。"@)))
                        .push(("enum"@, JsonView::Array(
                            Seq::empty()
                                .push(JsonView::Number(NumberView::PosInt(3000)))
                                .push(JsonView::Number(NumberView::PosInt(3500)))
                                .push(JsonView::Number(NumberView::PosInt(4000)))
                                .push(JsonView::Number(NumberView::PosInt(4500)))
                                .push(JsonView::Number(NumberView::PosInt(5000)))
                                .push(JsonView::Number(NumberView::PosInt(6000))),
                        )))
                        .push(("type"@, JsonView::Str("integer"@))),
                )))
                .push(("delta_kelvin"@, JsonView::Object(
                    Seq::empty()
                        .push(("description"@, JsonView::Str("色温相对调节值。increase_color_temperature/decrease_color_temperature 必须填写；用户未给数值时默认填 500；调高 1000K 填 1000；上调 1200K 填 1200。必须填完整 K 数值，不要写 100/120。"@)))
                        .push(("enum"@, JsonView::Array(
                            Seq::empty()
                                .push(JsonView::Number(NumberView::PosInt(500)))
                                .push(JsonView::Number(NumberView::PosInt(600)))
                                .push(JsonView::Number(NumberView::PosInt(800)))
                                .push(JsonView::Number(NumberView::PosInt(1000)))
                                .push(JsonView::Number(NumberView::PosInt(1200))),
                        )))
                        .push(("type"@, JsonView::Str("integer"@))),
                )))
                .push(("device_name"@, JsonView::Object(
                    Seq::empty()
                        .push(("description"@, JsonView::Str("灯具名称，例如灯、主灯、吸顶灯、筒灯、灯带、床头灯、台灯、夜灯。用户原话出现灯具名称时必须填写，不要省略。"@)))
                        .push(("enum"@, JsonView::Array(
                            Seq::empty()
                                .push(JsonView::Str("灯"@))
                                .push(JsonView::Str("主灯"@))
                                .push(JsonView::Str("吸顶灯"@))
                                .push(JsonView::Str("筒灯"@))
                                .push(JsonView::Str("射灯"@))
                                .push(JsonView::Str("灯带"@))
                                .push(JsonView::Str("彩光灯带"@))
                                .push(JsonView::Str("彩光灯"@))
                                .push(JsonView::Str("客厅灯"@))
                                .push(JsonView::Str("卧室灯"@))
                                .push(JsonView::Str("灯泡"@))
                                .push(JsonView::Str("球泡灯"@))
                                .push(JsonView::Str("色温灯"@))
                                .push(JsonView::Str("调光灯"@))
                                .push(JsonView::Str("床头灯"@))
                                .push(JsonView::Str("台灯"@))
                                .push(JsonView::Str("夜灯"@)),
                        )))
                        .push(("type"@, JsonView::Str("string"@))),
                )))
                .push(("floor"@, JsonView::Object(
                    Seq::empty()
                        .push(("description"@, JsonView::Str("楼层。用户原话出现楼层时必须填写；未说明时省略，不要编造。"@)))
                        .push(("enum"@, JsonView::Array(
                            Seq::empty()
                                .push(JsonView::Str("一楼"@))
                                .push(JsonView::Str("二楼"@))
                                .push(JsonView::Str("三楼"@))
                                .push(JsonView::Str("四楼"@))
                                .push(JsonView::Str("五楼"@))
                                .push(JsonView::Str("阁楼"@))
                                .push(JsonView::Str("地下室"@))
                                .push(JsonView::Str("夹层"@))
                                .push(JsonView::Str("屋顶花园"@))
                                .push(JsonView::Str("楼顶"@))
                                .push(JsonView::Str("顶楼"@))
                                .push(JsonView::Str("负一楼"@))
                                .push(JsonView::Str("地下一层"@)),
                        )))
                        .push(("type"@, JsonView::Str("string"@))),
                )))
                .push(("light_tone"@, JsonView::Object(
                    Seq::empty()
                        .push(("description"@, JsonView::Str("暖光=warm 且 color_temperature_kelvin=3000；中性光=neutral 且 4000；自然光=natural 且 4000；白光=white 且 6000；冷光=cool 且 6000。"@)))
                        .push(("enum"@, JsonView::Array(
                            Seq::empty()
                                .push(JsonView::Str("warm"@))
                                .push(JsonView::Str("neutral"@))
                                .push(JsonView::Str("natural"@))
                                .push(JsonView::Str("white"@))
                                .push(JsonView::Str("cool"@)),
                        )))
                        .push(("type"@, JsonView::Str("string"@))),
                )))
                .push(("room"@, JsonView::Object(
                    Seq::empty()
                        .push(("description"@, JsonView::Str("房间。用户原话出现房间时必须填写；全屋控制时使用“全屋”；未说明时省略。"@)))
                        .push(("enum"@, JsonView::Array(
                            Seq::empty()
                                .push(JsonView::Str("客厅"@))
                                .push(JsonView::Str("餐厅"@))
                                .push(JsonView::Str("主卧"@))
                                .push(JsonView::Str("次卧"@))
                                .push(JsonView::Str("儿童房"@))
                                .push(JsonView::Str("长辈房"@))
                                .push(JsonView::Str("书房"@))
                                .push(JsonView::Str("厨房"@))
                                .push(JsonView::Str("卫生间"@))
                                .push(JsonView::Str("阳台"@))
                                .push(JsonView::Str("衣帽间"@))
                                .push(JsonView::Str("玄关"@))
                                .push(JsonView::Str("走廊"@))
                                .push(JsonView::Str("储藏室"@))
                                .push(JsonView::Str("车库"@))
                                .push(JsonView::Str("健身房"@))
                                .push(JsonView::Str("影音室"@))
                                .push(JsonView::Str("娱乐室"@))
                                .push(JsonView::Str("洗衣房"@))
                                .push(JsonView::Str("茶室"@))
                                .push(JsonView::Str("棋牌室"@))
                                .push(JsonView::Str("瑜伽室"@))
                                .push(JsonView::Str("宠物房"@))
                                .push(JsonView::Str("停车场"@))
                                .push(JsonView::Str("电竞房"@))
                                .push(JsonView::Str("全屋"@)),
                        )))
                        .push(("type"@, JsonView::Str("string"@))),
                ))),
        )))
        .push(("required"@, JsonView::Array(
            Seq::empty()
                .push(JsonView::Str("action"@)),
        )))
        .push(("type"@, JsonView::Str("object"@)))
}

/// The parameter schema of `smart_home_control_light_temperature`, before decoration.
pub fn smart_home_control_light_temperature_parameters_value() -> (r: JsonValue)
    ensures
        r@ == smart_home_control_light_temperature_parameters(),
{
    {
        let mut e = new_entries();
        push_entry(&mut e, "additionalProperties", JsonValue::Bool(false));
        push_entry(&mut e, "properties", {
            let mut e = new_entries();
            push_entry(&mut e, "action", {
                let mut e = new_entries();
                push_entry(&mut e, "description", JsonValue::string("色温调冷/调白/调高/增加使用 increase_color_temperature；色温调暖/调黄/调低/降低使用 decrease_color_temperature；设置指定色温使用 set_color_temperature；调成暖光/中性光/自然光/白光/冷光使用 set_light_tone。"));
                push_entry(&mut e, "enum", {
                    let mut v = new_items();
                    push_item(&mut v, JsonValue::string("increase_color_temperature"));
                    push_item(&mut v, JsonValue::string("decrease_color_temperature"));
                    push_item(&mut v, JsonValue::string("set_color_temperature"));
                    push_item(&mut v, JsonValue::string("set_light_tone"));
                    JsonValue::Array(v)
                });
                push_entry(&mut e, "type", JsonValue::string("string"));
                JsonValue::Object(e)
            });
            push_entry(&mut e, "color_temperature_kelvin", {
                let mut e = new_entries();
                push_entry(&mut e, "description", JsonValue::string("目标色温 K。3000K 填 3000，3500K 填 3500，4000K 填 4000，4500K 填 4500，5000K 填 5000，6000K 填 6000。不要写 300/350/400/450/500/600。"));
                push_entry(&mut e, "enum", {
                    let mut v = new_items();
                    push_item(&mut v, JsonValue::Number(JsonNumber::PosInt(3000)));
                    push_item(&mut v, JsonValue::Number(JsonNumber::PosInt(3500)));
                    push_item(&mut v, JsonValue::Number(JsonNumber::PosInt(4000)));
                    push_item(&mut v, JsonValue::Number(JsonNumber::PosInt(4500)));
                    push_item(&mut v, JsonValue::Number(JsonNumber::PosInt(5000)));
                    push_item(&mut v, JsonValue::Number(JsonNumber::PosInt(6000)));
                    JsonValue::Array(v)
                });
                push_entry(&mut e, "type", JsonValue::string("integer"));
                JsonValue::Object(e)
            });
            push_entry(&mut e, "delta_kelvin", {
                let mut e = new_entries();
                push_entry(&mut e, "description", JsonValue::string("色温相对调节值。increase_color_temperature/decrease_color_temperature 必须填写；用户未给数值时默认填 500；调高 1000K 填 1000；上调 1200K 填 1200。必须填完整 K 数值，不要写 100/120。"));
                push_entry(&mut e, "enum", {
                    let mut v = new_items();
                    push_item(&mut v, JsonValue::Number(JsonNumber::PosInt(500)));
                    push_item(&mut v, JsonValue::Number(JsonNumber::PosInt(600)));
                    push_item(&mut v, JsonValue::Number(JsonNumber::PosInt(800)));
                    push_item(&mut v, JsonValue::Number(JsonNumber::PosInt(1000)));
                    push_item(&mut v, JsonValue::Number(JsonNumber::PosInt(1200)));
                    JsonValue::Array(v)
                });
                push_entry(&mut e, "type", JsonValue::string("integer"));
                JsonValue::Object(e)
            });
            push_entry(&mut e, "device_name", {
                let mut e = new_entries();
                push_entry(&mut e, "description", JsonValue::string("灯具名称，例如灯、主灯、吸顶灯、筒灯、灯带、床头灯、台灯、夜灯。用户原话出现灯具名称时必须填写，不要省略。"));
                push_entry(&mut e, "enum", {
                    let mut v = new_items();
                    push_item(&mut v, JsonValue::string("灯"));
                    push_item(&mut v, JsonValue::string("主灯"));
                    push_item(&mut v, JsonValue::string("吸顶灯"));
                    push_item(&mut v, JsonValue::string("筒灯"));
                    push_item(&mut v, JsonValue::string("射灯"));
                    push_item(&mut v, JsonValue::string("灯带"));
                    push_item(&mut v, JsonValue::string("彩光灯带"));
                    push_item(&mut v, JsonValue::string("彩光灯"));
                    push_item(&mut v, JsonValue::string("客厅灯"));
                    push_item(&mut v, JsonValue::string("卧室灯"));
                    push_item(&mut v, JsonValue::string("灯泡"));
                    push_item(&mut v, JsonValue::string("球泡灯"));
                    push_item(&mut v, JsonValue::string("色温灯"));
                    push_item(&mut v, JsonValue::string("调光灯"));
                    push_item(&mut v, JsonValue::string("床头灯"));
                    push_item(&mut v, JsonValue::string("台灯"));
                    push_item(&mut v, JsonValue::string("夜灯"));
                    JsonValue::Array(v)
                });
                push_entry(&mut e, "type", JsonValue::string("string"));
                JsonValue::Object(e)
            });
            push_entry(&mut e, "floor", {
                let mut e = new_entries();
                push_entry(&mut e, "description", JsonValue::string("楼层。用户原话出现楼层时必须填写；未说明时省略，不要编造。"));
                push_entry(&mut e, "enum", {
                    let mut v = new_items();
                    push_item(&mut v, JsonValue::string("一楼"));
                    push_item(&mut v, JsonValue::string("二楼"));
                    push_item(&mut v, JsonValue::string("三楼"));
                    push_item(&mut v, JsonValue::string("四楼"));
                    push_item(&mut v, JsonValue::string("五楼"));
                    push_item(&mut v, JsonValue::string("阁楼"));
                    push_item(&mut v, JsonValue::string("地下室"));
                    push_item(&mut v, JsonValue::string("夹层"));
                    push_item(&mut v, JsonValue::string("屋顶花园"));
                    push_item(&mut v, JsonValue::string("楼顶"));
                    push_item(&mut v, JsonValue::string("顶楼"));
                    push_item(&mut v, JsonValue::string("负一楼"));
                    push_item(&mut v, JsonValue::string("地下一层"));
                    JsonValue::Array(v)
                });
                push_entry(&mut e, "type", JsonValue::string("string"));
                JsonValue::Object(e)
            });
            push_entry(&mut e, "light_tone", {
                let mut e = new_entries();
                push_entry(&mut e, "description", JsonValue::string("暖光=warm 且 color_temperature_kelvin=3000；中性光=neutral 且 4000；自然光=natural 且 4000；白光=white 且 6000；冷光=cool 且 6000。"));
                push_entry(&mut e, "enum", {
                    let mut v = new_items();
                    push_item(&mut v, JsonValue::string("warm"));
                    push_item(&mut v, JsonValue::string("neutral"));
                    push_item(&mut v, JsonValue::string("natural"));
                    push_item(&mut v, JsonValue::string("white"));
                    push_item(&mut v, JsonValue::string("cool"));
                    JsonValue::Array(v)
                });
                push_entry(&mut e, "type", JsonValue::string("string"));
                JsonValue::Object(e)
            });
            push_entry(&mut e, "room", {
                let mut e = new_entries();
                push_entry(&mut e, "description", JsonValue::string("房间。用户原话出现房间时必须填写；全屋控制时使用“全屋”；未说明时省略。"));
                push_entry(&mut e, "enum", {
                    let mut v = new_items();
                    push_item(&mut v, JsonValue::string("客厅"));
                    push_item(&mut v, JsonValue::string("餐厅"));
                    push_item(&mut v, JsonValue::string("主卧"));
                    push_item(&mut v, JsonValue::string("次卧"));
                    push_item(&mut v, JsonValue::string("儿童房"));
                    push_item(&mut v, JsonValue::string("长辈房"));
                    push_item(&mut v, JsonValue::string("书房"));
                    push_item(&mut v, JsonValue::string("厨房"));
                    push_item(&mut v, JsonValue::string("卫生间"));
                    push_item(&mut v, JsonValue::string("阳台"));
                    push_item(&mut v, JsonValue::string("衣帽间"));
                    push_item(&mut v, JsonValue::string("玄关"));
                    push_item(&mut v, JsonValue::string("走廊"));
                    push_item(&mut v, JsonValue::string("储藏室"));
                    push_item(&mut v, JsonValue::string("车库"));
                    push_item(&mut v, JsonValue::string("健身房"));
                    push_item(&mut v, JsonValue::string("影音室"));
                    push_item(&mut v, JsonValue::string("娱乐室"));
                    push_item(&mut v, JsonValue::string("洗衣房"));
                    push_item(&mut v, JsonValue::string("茶室"));
                    push_item(&mut v, JsonValue::string("棋牌室"));
                    push_item(&mut v, JsonValue::string("瑜伽室"));
                    push_item(&mut v, JsonValue::string("宠物房"));
                    push_item(&mut v, JsonValue::string("停车场"));
                    push_item(&mut v, JsonValue::string("电竞房"));
                    push_item(&mut v, JsonValue::string("全屋"));
                    JsonValue::Array(v)
                });
                push_entry(&mut e, "type", JsonValue::string("string"));
                JsonValue::Object(e)
            });
            JsonValue::Object(e)
        });
        push_entry(&mut e, "required", {
            let mut v = new_items();
            push_item(&mut v, JsonValue::string("action"));
            JsonValue::Array(v)
        });
        push_entry(&mut e, "type", JsonValue::string("object"));
        JsonValue::Object(e)
    }
}

/// The parameter schema of `smart_home_control_curtain`, before decoration.
pub open spec fn smart_home_control_curtain_parameters() -> JsonView {
    JsonView::Object(smart_home_control_curtain_entries())
}

/// The entries of the parameter schema of `smart_home_control_curtain`.
pub open spec fn smart_home_control_curtain_entries() -> Seq<(Seq<char>, JsonView)> {
    Seq::empty()
        .push(("additionalProperties"@, JsonView::Bool(false)))
        .push(("properties"@, JsonView::Object(
            Seq::empty()
                .push(("action"@, JsonView::Object(
                    Seq::empty()
                        .push(("description"@, JsonView::Str("打开/拉开/展开使用 open；关闭/拉上/合上/收起使用 close；停止/暂停/停住使用 stop；开到百分比使用 set_position；百叶窗叶片角度使用 set_angle。"@)))
                        .push(("enum"@, JsonView::Array(
                            Seq::empty()
                                .push(JsonView::Str("open"@))
                                .push(JsonView::Str("close"@))
                                .push(JsonView::Str("stop"@))
                                .push(JsonView::Str("set_position"@))
                                .push(JsonView::Str("set_angle"@)),
                        )))
                        .push(("type"@, JsonView::Str("string"@))),
                )))
                .push(("angle_degree"@, JsonView::Object(
                    Seq::empty()
                        .push(("description"@, JsonView::Str("百叶窗角度。set_angle 必须填写；30度填 30，90度填 90。"@)))
                        .push(("maximum"@, JsonView::Number(NumberView::PosInt(180))))
                        .push(("minimum"@, JsonView::Number(NumberView::PosInt(0))))
                        .push(("type"@, JsonView::Str("integer"@))),
                )))
                .push(("device_name"@, JsonView::Object(
                    Seq::empty()
                        .push(("description"@, JsonView::Str("窗帘设备名称，例如窗帘、卷帘、百叶窗、梦幻帘。用户原话出现窗帘设备名时必须填写，不要省略。"@)))
                        .push(("enum"@, JsonView::Array(
                            Seq::empty()
                                .push(JsonView::Str("窗帘"@))
                                .push(JsonView::Str("窗帘电机"@))
                                .push(JsonView::Str("智能窗帘"@))
                                .push(JsonView::Str("智能窗帘电机"@))
                                .push(JsonView::Str("开窗器"@))
                                .push(JsonView::Str("卷帘"@))
                                .push(JsonView::Str("卷帘电机"@))
                                .push(JsonView::Str("开合帘"@))
                                .push(JsonView::Str("百叶窗"@))
                                .push(JsonView::Str("客厅窗帘"@))
                                .push(JsonView::Str("卧室窗帘"@))
                                .push(JsonView::Str("窗帘伴侣"@))
                                .push(JsonView::Str("梦幻帘"@)),
                        )))
                        .push(("type"@, JsonView::Str("string"@))),
                )))
                .push(("floor"@, JsonView::Object(
                    Seq::empty()
                        .push(("description"@, JsonView::Str("楼层。用户原话出现楼层时必须填写；未说明时省略，不要编造。"@)))
                        .push(("enum"@, JsonView::Array(
                            Seq::empty()
                                .push(JsonView::Str("一楼"@))
                                .push(JsonView::Str("二楼"@))
                                .push(JsonView::Str("三楼"@))
                                .push(JsonView::Str("四楼"@))
                                .push(JsonView::Str("五楼"@))
                                .push(JsonView::Str("阁楼"@))
                                .push(JsonView::Str("地下室"@))
                                .push(JsonView::Str("夹层"@))
                                .push(JsonView::Str("屋顶花园"@))
                                .push(JsonView::Str("楼顶"@))
                                .push(JsonView::Str("顶楼"@))
                                .push(JsonView::Str("负一楼"@))
                                .push(JsonView::Str("地下一层"@)),
                        )))
                        .push(("type"@, JsonView::Str("string"@))),
                )))
                .push(("position_percent"@, JsonView::Object(
                    Seq::empty()
                        .push(("description"@, JsonView::Str("窗帘开合度百分比。set_position 必须填写；一半填 50；百分之七十填 70。"@)))
                        .push(("maximum"@, JsonView::Number(NumberView::PosInt(100))))
                        .push(("minimum"@, JsonView::Number(NumberView::PosInt(0))))
                        .push(("type"@, JsonView::Str("integer"@))),
                )))
                .push(("room"@, JsonView::Object(
                    Seq::empty()
                        .push(("description"@, JsonView::Str("房间。用户原话出现房间时必须填写；全屋控制时使用“全屋”；未说明时省略。"@)))
                        .push(("enum"@, JsonView::Array(
                            Seq::empty()
                                .push(JsonView::Str("客厅"@))
                                .push(JsonView::Str("餐厅"@))
                                .push(JsonView::Str("主卧"@))
                                .push(JsonView::Str("次卧"@))
                                .push(JsonView::Str("儿童房"@))
                                .push(JsonView::Str("长辈房"@))
                                .push(JsonView::Str("书房"@))
                                .push(JsonView::Str("厨房"@))
                                .push(JsonView::Str("卫生间"@))
                                .push(JsonView::Str("阳台"@))
                                .push(JsonView::Str("衣帽间"@))
                                .push(JsonView::Str("玄关"@))
                                .push(JsonView::Str("走廊"@))
                                .push(JsonView::Str("储藏室"@))
                                .push(JsonView::Str("车库"@))
                                .push(JsonView::Str("健身房"@))
                                .push(JsonView::Str("影音室"@))
                                .push(JsonView::Str("娱乐室"@))
                                .push(JsonView::Str("洗衣房"@))
                                .push(JsonView::Str("茶室"@))
                                .push(JsonView::Str("棋牌室"@))
                                .push(JsonView::Str("瑜伽室"@))
                                .push(JsonView::Str("宠物房"@))
                                .push(JsonView::Str("停车场"@))
                                .push(JsonView::Str("电竞房"@))
                                .push(JsonView::Str("全屋"@)),
                        )))
                        .push(("type"@, JsonView::Str("string"@))),
                ))),
        )))
        .push(("required"@, JsonView::Array(
            Seq::empty()
                .push(JsonView::Str("action"@)),
        )))
        .push(("type"@, JsonView::Str("object"@)))
}

/// The parameter schema of `smart_home_control_curtain`, before decoration.
pub fn smart_home_control_curtain_parameters_value() -> (r: JsonValue)
    ensures
        r@ == smart_home_control_curtain_parameters(),
{
    {
        let mut e = new_entries();
        push_entry(&mut e, "additionalProperties", JsonValue::Bool(false));
        push_entry(&mut e, "properties", {
            let mut e = new_entries();
            push_entry(&mut e, "action", {
                let mut e = new_entries();
                push_entry(&mut e, "description", JsonValue::string("打开/拉开/展开使用 open；关闭/拉上/合上/收起使用 close；停止/暂停/停住使用 stop；开到百分比使用 set_position；百叶窗叶片角度使用 set_angle。"));
                push_entry(&mut e, "enum", {
                    let mut v = new_items();
                    push_item(&mut v, JsonValue::string("open"));
                    push_item(&mut v, JsonValue::string("close"));
                    push_item(&mut v, JsonValue::string("stop"));
                    push_item(&mut v, JsonValue::string("set_position"));
                    push_item(&mut v, JsonValue::string("set_angle"));
                    JsonValue::Array(v)
                });
                push_entry(&mut e, "type", JsonValue::string("string"));
                JsonValue::Object(e)
            });
            push_entry(&mut e, "angle_degree", {
                let mut e = new_entries();
                push_entry(&mut e, "description", JsonValue::string("百叶窗角度。set_angle 必须填写；30度填 30，90度填 90。"));
                push_entry(&mut e, "maximum", JsonValue::Number(JsonNumber::PosInt(180)));
                push_entry(&mut e, "minimum", JsonValue::Number(JsonNumber::PosInt(0)));
                push_entry(&mut e, "type", JsonValue::string("integer"));
                JsonValue::Object(e)
            });
            push_entry(&mut e, "device_name", {
                let mut e = new_entries();
                push_entry(&mut e, "description", JsonValue::string("窗帘设备名称，例如窗帘、卷帘、百叶窗、梦幻帘。用户原话出现窗帘设备名时必须填写，不要省略。"));
                push_entry(&mut e, "enum", {
                    let mut v = new_items();
                    push_item(&mut v, JsonValue::string("窗帘"));
                    push_item(&mut v, JsonValue::string("窗帘电机"));
                    push_item(&mut v, JsonValue::string("智能窗帘"));
                    push_item(&mut v, JsonValue::string("智能窗帘电机"));
                    push_item(&mut v, JsonValue::string("开窗器"));
                    push_item(&mut v, JsonValue::string("卷帘"));
                    push_item(&mut v, JsonValue::string("卷帘电机"));
                    push_item(&mut v, JsonValue::string("开合帘"));
                    push_item(&mut v, JsonValue::string("百叶窗"));
                    push_item(&mut v, JsonValue::string("客厅窗帘"));
                    push_item(&mut v, JsonValue::string("卧室窗帘"));
                    push_item(&mut v, JsonValue::string("窗帘伴侣"));
                    push_item(&mut v, JsonValue::string("梦幻帘"));
                    JsonValue::Array(v)
                });
                push_entry(&mut e, "type", JsonValue::string("string"));
                JsonValue::Object(e)
            });
            push_entry(&mut e, "floor", {
                let mut e = new_entries();
                push_entry(&mut e, "description", JsonValue::string("楼层。用户原话出现楼层时必须填写；未说明时省略，不要编造。"));
                push_entry(&mut e, "enum", {
                    let mut v = new_items();
                    push_item(&mut v, JsonValue::string("一楼"));
                    push_item(&mut v, JsonValue::string("二楼"));
                    push_item(&mut v, JsonValue::string("三楼"));
                    push_item(&mut v, JsonValue::string("四楼"));
                    push_item(&mut v, JsonValue::string("五楼"));
                    push_item(&mut v, JsonValue::string("阁楼"));
                    push_item(&mut v, JsonValue::string("地下室"));
                    push_item(&mut v, JsonValue::string("夹层"));
                    push_item(&mut v, JsonValue::string("屋顶花园"));
                    push_item(&mut v, JsonValue::string("楼顶"));
                    push_item(&mut v, JsonValue::string("顶楼"));
                    push_item(&mut v, JsonValue::string("负一楼"));
                    push_item(&mut v, JsonValue::string("地下一层"));
                    JsonValue::Array(v)
                });
                push_entry(&mut e, "type", JsonValue::string("string"));
                JsonValue::Object(e)
            });
            push_entry(&mut e, "position_percent", {
                let mut e = new_entries();
                push_entry(&mut e, "description", JsonValue::string("窗帘开合度百分比。set_position 必须填写；一半填 50；百分之七十填 70。"));
                push_entry(&mut e, "maximum", JsonValue::Number(JsonNumber::PosInt(100)));
                push_entry(&mut e, "minimum", JsonValue::Number(JsonNumber::PosInt(0)));
                push_entry(&mut e, "type", JsonValue::string("integer"));
                JsonValue::Object(e)
            });
            push_entry(&mut e, "room", {
                let mut e = new_entries();
                push_entry(&mut e, "description", JsonValue::string("房间。用户原话出现房间时必须填写；全屋控制时使用“全屋”；未说明时省略。"));
                push_entry(&mut e, "enum", {
                    let mut v = new_items();
                    push_item(&mut v, JsonValue::string("客厅"));
                    push_item(&mut v, JsonValue::string("餐厅"));
                    push_item(&mut v, JsonValue::string("主卧"));
                    push_item(&mut v, JsonValue::string("次卧"));
                    push_item(&mut v, JsonValue::string("儿童房"));
                    push_item(&mut v, JsonValue::string("长辈房"));
                    push_item(&mut v, JsonValue::string("书房"));
                    push_item(&mut v, JsonValue::string("厨房"));
                    push_item(&mut v, JsonValue::string("卫生间"));
                    push_item(&mut v, JsonValue::string("阳台"));
                    push_item(&mut v, JsonValue::string("衣帽间"));
                    push_item(&mut v, JsonValue::string("玄关"));
                    push_item(&mut v, JsonValue::string("走廊"));
                    push_item(&mut v, JsonValue::string("储藏室"));
                    push_item(&mut v, JsonValue::string("车库"));
                    push_item(&mut v, JsonValue::string("健身房"));
                    push_item(&mut v, JsonValue::string("影音室"));
                    push_item(&mut v, JsonValue::string("娱乐室"));
                    push_item(&mut v, JsonValue::string("洗衣房"));
                    push_item(&mut v, JsonValue::string("茶室"));
                    push_item(&mut v, JsonValue::string("棋牌室"));
                    push_item(&mut v, JsonValue::string("瑜伽室"));
                    push_item(&mut v, JsonValue::string("宠物房"));
                    push_item(&mut v, JsonValue::string("停车场"));
                    push_item(&mut v, JsonValue::string("电竞房"));
                    push_item(&mut v, JsonValue::string("全屋"));
                    JsonValue::Array(v)
                });
                push_entry(&mut e, "type", JsonValue::string("string"));
                JsonValue::Object(e)
            });
            JsonValue::Object(e)
        });
        push_entry(&mut e, "required", {
            let mut v = new_items();
            push_item(&mut v, JsonValue::string("action"));
            JsonValue::Array(v)
        });
        push_entry(&mut e, "type", JsonValue::string("object"));
        JsonValue::Object(e)
    }
}

/// The parameter schema of `smart_home_control_power`, before decoration.
pub open spec fn smart_home_control_power_parameters() -> JsonView {
    JsonView::Object(smart_home_control_power_entries())
}

/// The entries of the parameter schema of `smart_home_control_power`.
pub open spec fn smart_home_control_power_entries() -> Seq<(Seq<char>, JsonView)> {
    Seq::empty()
        .push(("additionalProperties"@, JsonView::Bool(false)))
        .push(("properties"@, JsonView::Object(
            Seq::empty()
                .push(("action"@, JsonView::Object(
                    Seq::empty()
                        .push(("description"@, JsonView::Str("打开、开开、接通、通电、按亮、弄亮使用 turn_on；关闭、关掉、断开、断电、按灭、弄灭使用 turn_off。不要使用 stop 表示关闭。"@)))
                        .push(("enum"@, JsonView::Array(
                            Seq::empty()
                                .push(JsonView::Str("turn_on"@))
                                .push(JsonView::Str("turn_off"@)),
                        )))
                        .push(("type"@, JsonView::Str("string"@))),
                )))
                .push(("device_category"@, JsonView::Object(
                    Seq::empty()
                        .push(("description"@, JsonView::Str("插座、智能插座、计量插座、智能插头、插头、墙壁插座都必须使用 outlet；一路开关、二路开关、三路开关、单开、双开、三开、墙壁开关、无线开关、通断器都必须使用 wall_switch。"@)))
                        .push(("enum"@, JsonView::Array(
                            Seq::empty()
                                .push(JsonView::Str("outlet"@))
                                .push(JsonView::Str("wall_switch"@)),
                        )))
                        .push(("type"@, JsonView::Str("string"@))),
                )))
                .push(("device_name"@, JsonView::Object(
                    Seq::empty()
                        .push(("description"@, JsonView::Str("设备名称，例如智能插座、计量插座、智能插头、墙壁插座、一路开关、双开、墙壁开关。用户原话出现电源设备名时必须填写，不要省略。"@)))
                        .push(("enum"@, JsonView::Array(
                            Seq::empty()
                                .push(JsonView::Str("插座"@))
                                .push(JsonView::Str("智能插座"@))
                                .push(JsonView::Str("插头"@))
                                .push(JsonView::Str("开关插座"@))
                                .push(JsonView::Str("计量插座"@))
                                .push(JsonView::Str("墙壁插座"@))
                                .push(JsonView::Str("开关"@))
                                .push(JsonView::Str("一路开关"@))
                                .push(JsonView::Str("二路开关"@))
                                .push(JsonView::Str("三路开关"@))
                                .push(JsonView::Str("一键开关"@))
                                .push(JsonView::Str("二键开关"@))
                                .push(JsonView::Str("三键开关"@))
                                .push(JsonView::Str("单开"@))
                                .push(JsonView::Str("双开"@))
                                .push(JsonView::Str("三开"@))
                                .push(JsonView::Str("墙壁开关"@))
                                .push(JsonView::Str("零火开关"@))
                                .push(JsonView::Str("单火开关"@))
                                .push(JsonView::Str("场景开关"@))
                                .push(JsonView::Str("无线开关"@))
                                .push(JsonView::Str("通断器"@)),
                        )))
                        .push(("type"@, JsonView::Str("string"@))),
                )))
                .push(("floor"@, JsonView::Object(
                    Seq::empty()
                        .push(("description"@, JsonView::Str("楼层。用户原话出现楼层时必须填写；未说明时省略，不要编造。"@)))
                        .push(("enum"@, JsonView::Array(
                            Seq::empty()
                                .push(JsonView::Str("一楼"@))
                                .push(JsonView::Str("二楼"@))
                                .push(JsonView::Str("三楼"@))
                                .push(JsonView::Str("四楼"@))
                                .push(JsonView::Str("五楼"@))
                                .push(JsonView::Str("阁楼"@))
                                .push(JsonView::Str("地下室"@))
                                .push(JsonView::Str("夹层"@))
                                .push(JsonView::Str("屋顶花园"@))
                                .push(JsonView::Str("楼顶"@))
                                .push(JsonView::Str("顶楼"@))
                                .push(JsonView::Str("负一楼"@))
                                .push(JsonView::Str("地下一层"@)),
                        )))
                        .push(("type"@, JsonView::Str("string"@))),
                )))
                .push(("room"@, JsonView::Object(
                    Seq::empty()
                        .push(("description"@, JsonView::Str("房间。用户原话出现房间时必须填写；全屋控制时使用“全屋”；未说明时省略。"@)))
                        .push(("enum"@, JsonView::Array(
                            Seq::empty()
                                .push(JsonView::Str("客厅"@))
                                .push(JsonView::Str("餐厅"@))
                                .push(JsonView::Str("主卧"@))
                                .push(JsonView::Str("次卧"@))
                                .push(JsonView::Str("儿童房"@))
                                .push(JsonView::Str("长辈房"@))
                                .push(JsonView::Str("书房"@))
                                .push(JsonView::Str("厨房"@))
                                .push(JsonView::Str("卫生间"@))
                                .push(JsonView::Str("阳台"@))
                                .push(JsonView::Str("衣帽间"@))
                                .push(JsonView::Str("玄关"@))
                                .push(JsonView::Str("走廊"@))
                                .push(JsonView::Str("储藏室"@))
                                .push(JsonView::Str("车库"@))
                                .push(JsonView::Str("健身房"@))
                                .push(JsonView::Str("影音室"@))
                                .push(JsonView::Str("娱乐室"@))
                                .push(JsonView::Str("洗衣房"@))
                                .push(JsonView::Str("茶室"@))
                                .push(JsonView::Str("棋牌室"@))
                                .push(JsonView::Str("瑜伽室"@))
                                .push(JsonView::Str("宠物房"@))
                                .push(JsonView::Str("停车场"@))
                                .push(JsonView::Str("电竞房"@))
                                .push(JsonView::Str("全屋"@)),
                        )))
                        .push(("type"@, JsonView::Str("string"@))),
                ))),
        )))
        .push(("required"@, JsonView::Array(
            Seq::empty()
                .push(JsonView::Str("device_category"@))
                .push(JsonView::Str("action"@)),
        )))
        .push(("type"@, JsonView::Str("object"@)))
}

/// The parameter schema of `smart_home_control_power`, before decoration.
pub fn smart_home_control_power_parameters_value() -> (r: JsonValue)
    ensures
        r@ == smart_home_control_power_parameters(),
{
    {
        let mut e = new_entries();
        push_entry(&mut e, "additionalProperties", JsonValue::Bool(false));
        push_entry(&mut e, "properties", {
            let mut e = new_entries();
            push_entry(&mut e, "action", {
                let mut e = new_entries();
                push_entry(&mut e, "description", JsonValue::string("打开、开开、接通、通电、按亮、弄亮使用 turn_on；关闭、关掉、断开、断电、按灭、弄灭使用 turn_off。不要使用 stop 表示关闭。"));
                push_entry(&mut e, "enum", {
                    let mut v = new_items();
                    push_item(&mut v, JsonValue::string("turn_on"));
                    push_item(&mut v, JsonValue::string("turn_off"));
                    JsonValue::Array(v)
                });
                push_entry(&mut e, "type", JsonValue::string("string"));
                JsonValue::Object(e)
            });
            push_entry(&mut e, "device_category", {
                let mut e = new_entries();
                push_entry(&mut e, "description", JsonValue::string("插座、智能插座、计量插座、智能插头、插头、墙壁插座都必须使用 outlet；一路开关、二路开关、三路开关、单开、双开、三开、墙壁开关、无线开关、通断器都必须使用 wall_switch。"));
                push_entry(&mut e, "enum", {
                    let mut v = new_items();
                    push_item(&mut v, JsonValue::string("outlet"));
                    push_item(&mut v, JsonValue::string("wall_switch"));
                    JsonValue::Array(v)
                });
                push_entry(&mut e, "type", JsonValue::string("string"));
                JsonValue::Object(e)
            });
            push_entry(&mut e, "device_name", {
                let mut e = new_entries();
                push_entry(&mut e, "description", JsonValue::string("设备名称，例如智能插座、计量插座、智能插头、墙壁插座、一路开关、双开、墙壁开关。用户原话出现电源设备名时必须填写，不要省略。"));
                push_entry(&mut e, "enum", {
                    let mut v = new_items();
                    push_item(&mut v, JsonValue::string("插座"));
                    push_item(&mut v, JsonValue::string("智能插座"));
                    push_item(&mut v, JsonValue::string("插头"));
                    push_item(&mut v, JsonValue::string("开关插座"));
                    push_item(&mut v, JsonValue::string("计量插座"));
                    push_item(&mut v, JsonValue::string("墙壁插座"));
                    push_item(&mut v, JsonValue::string("开关"));
                    push_item(&mut v, JsonValue::string("一路开关"));
                    push_item(&mut v, JsonValue::string("二路开关"));
                    push_item(&mut v, JsonValue::string("三路开关"));
                    push_item(&mut v, JsonValue::string("一键开关"));
                    push_item(&mut v, JsonValue::string("二键开关"));
                    push_item(&mut v, JsonValue::string("三键开关"));
                    push_item(&mut v, JsonValue::string("单开"));
                    push_item(&mut v, JsonValue::string("双开"));
                    push_item(&mut v, JsonValue::string("三开"));
                    push_item(&mut v, JsonValue::string("墙壁开关"));
                    push_item(&mut v, JsonValue::string("零火开关"));
                    push_item(&mut v, JsonValue::string("单火开关"));
                    push_item(&mut v, JsonValue::string("场景开关"));
                    push_item(&mut v, JsonValue::string("无线开关"));
                    push_item(&mut v, JsonValue::string("通断器"));
                    JsonValue::Array(v)
                });
                push_entry(&mut e, "type", JsonValue::string("string"));
                JsonValue::Object(e)
            });
            push_entry(&mut e, "floor", {
                let mut e = new_entries();
                push_entry(&mut e, "description", JsonValue::string("楼层。用户原话出现楼层时必须填写；未说明时省略，不要编造。"));
                push_entry(&mut e, "enum", {
                    let mut v = new_items();
                    push_item(&mut v, JsonValue::string("一楼"));
                    push_item(&mut v, JsonValue::string("二楼"));
                    push_item(&mut v, JsonValue::string("三楼"));
                    push_item(&mut v, JsonValue::string("四楼"));
                    push_item(&mut v, JsonValue::string("五楼"));
                    push_item(&mut v, JsonValue::string("阁楼"));
                    push_item(&mut v, JsonValue::string("地下室"));
                    push_item(&mut v, JsonValue::string("夹层"));
                    push_item(&mut v, JsonValue::string("屋顶花园"));
                    push_item(&mut v, JsonValue::string("楼顶"));
                    push_item(&mut v, JsonValue::string("顶楼"));
                    push_item(&mut v, JsonValue::string("负一楼"));
                    push_item(&mut v, JsonValue::string("地下一层"));
                    JsonValue::Array(v)
                });
                push_entry(&mut e, "type", JsonValue::string("string"));
                JsonValue::Object(e)
            });
            push_entry(&mut e, "room", {
                let mut e = new_entries();
                push_entry(&mut e, "description", JsonValue::string("房间。用户原话出现房间时必须填写；全屋控制时使用“全屋”；未说明时省略。"));
                push_entry(&mut e, "enum", {
                    let mut v = new_items();
                    push_item(&mut v, JsonValue::string("客厅"));
                    push_item(&mut v, JsonValue::string("餐厅"));
                    push_item(&mut v, JsonValue::string("主卧"));
                    push_item(&mut v, JsonValue::string("次卧"));
                    push_item(&mut v, JsonValue::string("儿童房"));
                    push_item(&mut v, JsonValue::string("长辈房"));
                    push_item(&mut v, JsonValue::string("书房"));
                    push_item(&mut v, JsonValue::string("厨房"));
                    push_item(&mut v, JsonValue::string("卫生间"));
                    push_item(&mut v, JsonValue::string("阳台"));
                    push_item(&mut v, JsonValue::string("衣帽间"));
                    push_item(&mut v, JsonValue::string("玄关"));
                    push_item(&mut v, JsonValue::string("走廊"));
                    push_item(&mut v, JsonValue::string("储藏室"));
                    push_item(&mut v, JsonValue::string("车库"));
                    push_item(&mut v, JsonValue::string("健身房"));
                    push_item(&mut v, JsonValue::string("影音室"));
                    push_item(&mut v, JsonValue::string("娱乐室"));
                    push_item(&mut v, JsonValue::string("洗衣房"));
                    push_item(&mut v, JsonValue::string("茶室"));
                    push_item(&mut v, JsonValue::string("棋牌室"));
                    push_item(&mut v, JsonValue::string("瑜伽室"));
                    push_item(&mut v, JsonValue::string("宠物房"));
                    push_item(&mut v, JsonValue::string("停车场"));
                    push_item(&mut v, JsonValue::string("电竞房"));
                    push_item(&mut v, JsonValue::string("全屋"));
                    JsonValue::Array(v)
                });
                push_entry(&mut e, "type", JsonValue::string("string"));
                JsonValue::Object(e)
            });
            JsonValue::Object(e)
        });
        push_entry(&mut e, "required", {
            let mut v = new_items();
            push_item(&mut v, JsonValue::string("device_category"));
            push_item(&mut v, JsonValue::string("action"));
            JsonValue::Array(v)
        });
        push_entry(&mut e, "type", JsonValue::string("object"));
        JsonValue::Object(e)
    }
}

/// The parameter schema of `smart_home_control_scene`, before decoration.
pub open spec fn smart_home_control_scene_parameters() -> JsonView {
    JsonView::Object(smart_home_control_scene_entries())
}

/// The entries of the parameter schema of `smart_home_control_scene`.
pub open spec fn smart_home_control_scene_entries() -> Seq<(Seq<char>, JsonView)> {
    Seq::empty()
        .push(("additionalProperties"@, JsonView::Bool(false)))
        .push(("properties"@, JsonView::Object(
            Seq::empty()
                .push(("action"@, JsonView::Object(
                    Seq::empty()
                        .push(("description"@, JsonView::Str("打开/设置/执行/启动场景使用 activate；关闭/退出/停止场景使用 deactivate。"@)))
                        .push(("enum"@, JsonView::Array(
                            Seq::empty()
                                .push(JsonView::Str("activate"@))
                                .push(JsonView::Str("deactivate"@)),
                        )))
                        .push(("type"@, JsonView::Str("string"@))),
                )))
                .push(("scene_name"@, JsonView::Object(
                    Seq::empty()
                        .push(("description"@, JsonView::Str("场景模式名称。"@)))
                        .push(("enum"@, JsonView::Array(
                            Seq::empty()
                                .push(JsonView::Str("回家模式"@))
                                .push(JsonView::Str("离家模式"@))
                                .push(JsonView::Str("睡眠模式"@))
                                .push(JsonView::Str("起床模式"@))
                                .push(JsonView::Str("电影模式"@))
                                .push(JsonView::Str("用餐模式"@))
                                .push(JsonView::Str("会客模式"@))
                                .push(JsonView::Str("阅读模式"@))
                                .push(JsonView::Str("浪漫模式"@))
                                .push(JsonView::Str("派对模式"@))
                                .push(JsonView::Str("节能模式"@))
                                .push(JsonView::Str("安防模式"@))
                                .push(JsonView::Str("通风模式"@))
                                .push(JsonView::Str("度假模式"@))
                                .push(JsonView::Str("宠物模式"@)),
                        )))
                        .push(("type"@, JsonView::Str("string"@))),
                ))),
        )))
        .push(("required"@, JsonView::Array(
            Seq::empty()
                .push(JsonView::Str("scene_name"@))
                .push(JsonView::Str("action"@)),
        )))
        .push(("type"@, JsonView::Str("object"@)))
}

/// The parameter schema of `smart_home_control_scene`, before decoration.
pub fn smart_home_control_scene_parameters_value() -> (r: JsonValue)
    ensures
        r@ == smart_home_control_scene_parameters(),
{
    {
        let mut e = new_entries();
        push_entry(&mut e, "additionalProperties", JsonValue::Bool(false));
        push_entry(&mut e, "properties", {
            let mut e = new_entries();
            push_entry(&mut e, "action", {
                let mut e = new_entries();
                push_entry(&mut e, "description", JsonValue::string("打开/设置/执行/启动场景使用 activate；关闭/退出/停止场景使用 deactivate。"));
                push_entry(&mut e, "enum", {
                    let mut v = new_items();
                    push_item(&mut v, JsonValue::string("activate"));
                    push_item(&mut v, JsonValue::string("deactivate"));
                    JsonValue::Array(v)
                });
                push_entry(&mut e, "type", JsonValue::string("string"));
                JsonValue::Object(e)
            });
            push_entry(&mut e, "scene_name", {
                let mut e = new_entries();
                push_entry(&mut e, "description", JsonValue::string("场景模式名称。"));
                push_entry(&mut e, "enum", {
                    let mut v = new_items();
                    push_item(&mut v, JsonValue::string("回家模式"));
                    push_item(&mut v, JsonValue::string("离家模式"));
                    push_item(&mut v, JsonValue::string("睡眠模式"));
                    push_item(&mut v, JsonValue::string("起床模式"));
                    push_item(&mut v, JsonValue::string("电影模式"));
                    push_item(&mut v, JsonValue::string("用餐模式"));
                    push_item(&mut v, JsonValue::string("会客模式"));
                    push_item(&mut v, JsonValue::string("阅读模式"));
                    push_item(&mut v, JsonValue::string("浪漫模式"));
                    push_item(&mut v, JsonValue::string("派对模式"));
                    push_item(&mut v, JsonValue::string("节能模式"));
                    push_item(&mut v, JsonValue::string("安防模式"));
                    push_item(&mut v, JsonValue::string("通风模式"));
                    push_item(&mut v, JsonValue::string("度假模式"));
                    push_item(&mut v, JsonValue::string("宠物模式"));
                    JsonValue::Array(v)
                });
                push_entry(&mut e, "type", JsonValue::string("string"));
                JsonValue::Object(e)
            });
            JsonValue::Object(e)
        });
        push_entry(&mut e, "required", {
            let mut v = new_items();
            push_item(&mut v, JsonValue::string("scene_name"));
            push_item(&mut v, JsonValue::string("action"));
            JsonValue::Array(v)
        });
        push_entry(&mut e, "type", JsonValue::string("object"));
        JsonValue::Object(e)
    }
}

/// The parameter schema of `digital_file_manager`, before decoration.
pub open spec fn digital_file_manager_parameters() -> JsonView {
    JsonView::Object(digital_file_manager_entries())
}

/// The entries of the parameter schema of `digital_file_manager`.
pub open spec fn digital_file_manager_entries() -> Seq<(Seq<char>, JsonView)> {
    Seq::empty()
        .push(("additionalProperties"@, JsonView::Bool(false)))
        .push(("properties"@, JsonView::Object(
            Seq::empty()
                .push(("action"@, JsonView::Object(
                    Seq::empty()
                        .push(("description"@, JsonView::Str("查看文件/目录属性用 get_properties；查看目录里有什么用 list_directory；统计桌面/下载目录有几个文件用 count_directory。"@)))
                        .push(("enum"@, JsonView::Array(
                            Seq::empty()
                                .push(JsonView::Str("get_properties"@))
                                .push(JsonView::Str("list_directory"@))
                                .push(JsonView::Str("count_directory"@)),
                        )))
                        .push(("type"@, JsonView::Str("string"@))),
                )))
                .push(("include_hidden"@, JsonView::Object(
                    Seq::empty()
                        .push(("description"@, JsonView::Str("是否包含隐藏文件。用户未说明时默认 false。"@)))
                        .push(("type"@, JsonView::Str("boolean"@))),
                )))
                .push(("max_entries"@, JsonView::Object(
                    Seq::empty()
                        .push(("description"@, JsonView::Str("list_directory 最多返回多少项，默认 50。"@)))
                        .push(("maximum"@, JsonView::Number(NumberView::PosInt(200))))
                        .push(("minimum"@, JsonView::Number(NumberView::PosInt(1))))
                        .push(("type"@, JsonView::Str("integer"@))),
                )))
                .push(("path"@, JsonView::Object(
                    Seq::empty()
                        .push(("description"@, JsonView::Str("用户给出的文件或目录路径。可以是绝对路径、相对路径或 ~/ 开头路径；必须保留用户原文目标。"@)))
                        .push(("type"@, JsonView::Str("string"@))),
                ))),
        )))
        .push(("required"@, JsonView::Array(
            Seq::empty()
                .push(JsonView::Str("action"@))
                .push(JsonView::Str("path"@)),
        )))
        .push(("type"@, JsonView::Str("object"@)))
}

/// The parameter schema of `digital_file_manager`, before decoration.
pub fn digital_file_manager_parameters_value() -> (r: JsonValue)
    ensures
        r@ == digital_file_manager_parameters(),
{
    {
        let mut e = new_entries();
        push_entry(&mut e, "additionalProperties", JsonValue::Bool(false));
        push_entry(&mut e, "properties", {
            let mut e = new_entries();
            push_entry(&mut e, "action", {
                let mut e = new_entries();
                push_entry(&mut e, "description", JsonValue::string("查看文件/目录属性用 get_properties；查看目录里有什么用 list_directory；统计桌面/下载目录有几个文件用 count_directory。"));
                push_entry(&mut e, "enum", {
                    let mut v = new_items();
                    push_item(&mut v, JsonValue::string("get_properties"));
                    push_item(&mut v, JsonValue::string("list_directory"));
                    push_item(&mut v, JsonValue::string("count_directory"));
                    JsonValue::Array(v)
                });
                push_entry(&mut e, "type", JsonValue::string("string"));
                JsonValue::Object(e)
            });
            push_entry(&mut e, "include_hidden", {
                let mut e = new_entries();
                push_entry(&mut e, "description", JsonValue::string("是否包含隐藏文件。用户未说明时默认 false。"));
                push_entry(&mut e, "type", JsonValue::string("boolean"));
                JsonValue::Object(e)
            });
            push_entry(&mut e, "max_entries", {
                let mut e = new_entries();
                push_entry(&mut e, "description", JsonValue::string("list_directory 最多返回多少项，默认 50。"));
                push_entry(&mut e, "maximum", JsonValue::Number(JsonNumber::PosInt(200)));
                push_entry(&mut e, "minimum", JsonValue::Number(JsonNumber::PosInt(1)));
                push_entry(&mut e, "type", JsonValue::string("integer"));
                JsonValue::Object(e)
            });
            push_entry(&mut e, "path", {
                let mut e = new_entries();
                push_entry(&mut e, "description", JsonValue::string("用户给出的文件或目录路径。可以是绝对路径、相对路径或 ~/ 开头路径；必须保留用户原文目标。"));
                push_entry(&mut e, "type", JsonValue::string("string"));
                JsonValue::Object(e)
            });
            JsonValue::Object(e)
        });
        push_entry(&mut e, "required", {
            let mut v = new_items();
            push_item(&mut v, JsonValue::string("action"));
            push_item(&mut v, JsonValue::string("path"));
            JsonValue::Array(v)
        });
        push_entry(&mut e, "type", JsonValue::string("object"));
        JsonValue::Object(e)
    }
}

/// The parameter schema of `digital_photo_library`, before decoration.
pub open spec fn digital_photo_library_parameters() -> JsonView {
    JsonView::Object(digital_photo_library_entries())
}

/// The entries of the parameter schema of `digital_photo_library`.
pub open spec fn digital_photo_library_entries() -> Seq<(Seq<char>, JsonView)> {
    Seq::empty()
        .push(("additionalProperties"@, JsonView::Bool(false)))
        .push(("properties"@, JsonView::Object(
            Seq::empty()
                .push(("action"@, JsonView::Object(
                    Seq::empty()
                        .push(("description"@, JsonView::Str("我有哪些相册=list_albums；分享出去的相册=list_shared_albums；查宝宝相册=search_album；猫的照片在哪个相册=find_photo_album；这张照片什么时候/在哪拍=get_photo_metadata。"@)))
                        .push(("enum"@, JsonView::Array(
                            Seq::empty()
                                .push(JsonView::Str("list_albums"@))
                                .push(JsonView::Str("list_shared_albums"@))
                                .push(JsonView::Str("search_album"@))
                                .push(JsonView::Str("find_photo_album"@))
                                .push(JsonView::Str("get_photo_metadata"@)),
                        )))
                        .push(("type"@, JsonView::Str("string"@))),
                )))
                .push(("album_query"@, JsonView::Object(
                    Seq::empty()
                        .push(("description"@, JsonView::Str("相册名或相册关键词，例如“宝宝相册”。用户原话出现时必须原样填写。"@)))
                        .push(("type"@, JsonView::Str("string"@))),
                )))
                .push(("metadata_fields"@, JsonView::Object(
                    Seq::empty()
                        .push(("description"@, JsonView::Str("需要查看的拍摄信息字段；未说明时可填 captured_at、location、exif。"@)))
                        .push(("items"@, JsonView::Object(
                            Seq::empty()
                                .push(("enum"@, JsonView::Array(
                                    Seq::empty()
                                        .push(JsonView::Str("captured_at"@))
                                        .push(JsonView::Str("location"@))
                                        .push(JsonView::Str("camera"@))
                                        .push(JsonView::Str("exif"@))
                                        .push(JsonView::Str("album"@)),
                                )))
                                .push(("type"@, JsonView::Str("string"@))),
                        )))
                        .push(("type"@, JsonView::Str("array"@))),
                )))
                .push(("photo_id"@, JsonView::Object(
                    Seq::empty()
                        .push(("description"@, JsonView::Str("上下文中已有的照片 ID。"@)))
                        .push(("type"@, JsonView::Str("string"@))),
                )))
                .push(("photo_path"@, JsonView::Object(
                    Seq::empty()
                        .push(("description"@, JsonView::Str("单张照片文件路径。"@)))
                        .push(("type"@, JsonView::Str("string"@))),
                )))
                .push(("photo_query"@, JsonView::Object(
                    Seq::empty()
                        .push(("description"@, JsonView::Str("照片自然语言目标，例如“猫的照片”。"@)))
                        .push(("type"@, JsonView::Str("string"@))),
                ))),
        )))
        .push(("required"@, JsonView::Array(
            Seq::empty()
                .push(JsonView::Str("action"@)),
        )))
        .push(("type"@, JsonView::Str("object"@)))
}

/// The parameter schema of `digital_photo_library`, before decoration.
pub fn digital_photo_library_parameters_value() -> (r: JsonValue)
    ensures
        r@ == digital_photo_library_parameters(),
{
    {
        let mut e = new_entries();
        push_entry(&mut e, "additionalProperties", JsonValue::Bool(false));
        push_entry(&mut e, "properties", {
            let mut e = new_entries();
            push_entry(&mut e, "action", {
                let mut e = new_entries();
                push_entry(&mut e, "description", JsonValue::string("我有哪些相册=list_albums；分享出去的相册=list_shared_albums；查宝宝相册=search_album；猫的照片在哪个相册=find_photo_album；这张照片什么时候/在哪拍=get_photo_metadata。"));
                push_entry(&mut e, "enum", {
                    let mut v = new_items();
                    push_item(&mut v, JsonValue::string("list_albums"));
                    push_item(&mut v, JsonValue::string("list_shared_albums"));
                    push_item(&mut v, JsonValue::string("search_album"));
                    push_item(&mut v, JsonValue::string("find_photo_album"));
                    push_item(&mut v, JsonValue::string("get_photo_metadata"));
                    JsonValue::Array(v)
                });
                push_entry(&mut e, "type", JsonValue::string("string"));
                JsonValue::Object(e)
            });
            push_entry(&mut e, "album_query", {
                let mut e = new_entries();
                push_entry(&mut e, "description", JsonValue::string("相册名或相册关键词，例如“宝宝相册”。用户原话出现时必须原样填写。"));
                push_entry(&mut e, "type", JsonValue::string("string"));
                JsonValue::Object(e)
            });
            push_entry(&mut e, "metadata_fields", {
                let mut e = new_entries();
                push_entry(&mut e, "description", JsonValue::string("需要查看的拍摄信息字段；未说明时可填 captured_at、location、exif。"));
                push_entry(&mut e, "items", {
                    let mut e = new_entries();
                    push_entry(&mut e, "enum", {
                        let mut v = new_items();
                        push_item(&mut v, JsonValue::string("captured_at"));
                        push_item(&mut v, JsonValue::string("location"));
                        push_item(&mut v, JsonValue::string("camera"));
                        push_item(&mut v, JsonValue::string("exif"));
                        push_item(&mut v, JsonValue::string("album"));
                        JsonValue::Array(v)
                    });
                    push_entry(&mut e, "type", JsonValue::string("string"));
                    JsonValue::Object(e)
                });
                push_entry(&mut e, "type", JsonValue::string("array"));
                JsonValue::Object(e)
            });
            push_entry(&mut e, "photo_id", {
                let mut e = new_entries();
                push_entry(&mut e, "description", JsonValue::string("上下文中已有的照片 ID。"));
                push_entry(&mut e, "type", JsonValue::string("string"));
                JsonValue::Object(e)
            });
            push_entry(&mut e, "photo_path", {
                let mut e = new_entries();
                push_entry(&mut e, "description", JsonValue::string("单张照片文件路径。"));
                push_entry(&mut e, "type", JsonValue::string("string"));
                JsonValue::Object(e)
            });
            push_entry(&mut e, "photo_query", {
                let mut e = new_entries();
                push_entry(&mut e, "description", JsonValue::string("照片自然语言目标，例如“猫的照片”。"));
                push_entry(&mut e, "type", JsonValue::string("string"));
                JsonValue::Object(e)
            });
            JsonValue::Object(e)
        });
        push_entry(&mut e, "required", {
            let mut v = new_items();
            push_item(&mut v, JsonValue::string("action"));
            JsonValue::Array(v)
        });
        push_entry(&mut e, "type", JsonValue::string("object"));
        JsonValue::Object(e)
    }
}

/// The parameter schema of `digital_media_control`, before decoration.
pub open spec fn digital_media_control_parameters() -> JsonView {
    JsonView::Object(digital_media_control_entries())
}

/// The entries of the parameter schema of `digital_media_control`.
pub open spec fn digital_media_control_entries() -> Seq<(Seq<char>, JsonView)> {
    Seq::empty()
        .push(("additionalProperties"@, JsonView::Bool(false)))
        .push(("properties"@, JsonView::Object(
            Seq::empty()
                .push(("action"@, JsonView::Object(
                    Seq::empty()
                        .push(("description"@, JsonView::Str("播放片名=play_title；继续看上次那部=resume_last；暂停=pause；继续播放=resume；下一集/上一集/跳到第几集；切换音轨/字幕；投屏；看到第几集。"@)))
                        .push(("enum"@, JsonView::Array(
                            Seq::empty()
                                .push(JsonView::Str("play_title"@))
                                .push(JsonView::Str("resume_last"@))
                                .push(JsonView::Str("pause"@))
                                .push(JsonView::Str("resume"@))
                                .push(JsonView::Str("next_episode"@))
                                .push(JsonView::Str("previous_episode"@))
                                .push(JsonView::Str("jump_episode"@))
                                .push(JsonView::Str("switch_audio"@))
                                .push(JsonView::Str("switch_subtitle"@))
                                .push(JsonView::Str("cast_to_device"@))
                                .push(JsonView::Str("get_progress"@)),
                        )))
                        .push(("type"@, JsonView::Str("string"@))),
                )))
                .push(("audio_track"@, JsonView::Object(
                    Seq::empty()
                        .push(("description"@, JsonView::Str("目标音轨，如国语、粤语、英文；用户未指定可省略。"@)))
                        .push(("type"@, JsonView::Str("string"@))),
                )))
                .push(("episode_number"@, JsonView::Object(
                    Seq::empty()
                        .push(("description"@, JsonView::Str("目标集数。跳到第 5 集填 5。"@)))
                        .push(("minimum"@, JsonView::Number(NumberView::PosInt(1))))
                        .push(("type"@, JsonView::Str("integer"@))),
                )))
                .push(("subtitle"@, JsonView::Object(
                    Seq::empty()
                        .push(("description"@, JsonView::Str("目标字幕，如中文字幕、英文字幕、关闭字幕；用户未指定可省略。"@)))
                        .push(("type"@, JsonView::Str("string"@))),
                )))
                .push(("target_device"@, JsonView::Object(
                    Seq::empty()
                        .push(("description"@, JsonView::Str("投屏目标设备，例如“客厅电视”。"@)))
                        .push(("type"@, JsonView::Str("string"@))),
                )))
                .push(("title"@, JsonView::Object(
                    Seq::empty()
                        .push(("description"@, JsonView::Str("影片、剧集、节目名称，例如“狂飙”。用户原话出现时必须原样填写。"@)))
                        .push(("type"@, JsonView::Str("string"@))),
                ))),
        )))
        .push(("required"@, JsonView::Array(
            Seq::empty()
                .push(JsonView::Str("action"@)),
        )))
        .push(("type"@, JsonView::Str("object"@)))
}

/// The parameter schema of `digital_media_control`, before decoration.
pub fn digital_media_control_parameters_value() -> (r: JsonValue)
    ensures
        r@ == digital_media_control_parameters(),
{
    {
        let mut e = new_entries();
        push_entry(&mut e, "additionalProperties", JsonValue::Bool(false));
        push_entry(&mut e, "properties", {
            let mut e = new_entries();
            push_entry(&mut e, "action", {
                let mut e = new_entries();
                push_entry(&mut e, "description", JsonValue::string("播放片名=play_title；继续看上次那部=resume_last；暂停=pause；继续播放=resume；下一集/上一集/跳到第几集；切换音轨/字幕；投屏；看到第几集。"));
                push_entry(&mut e, "enum", {
                    let mut v = new_items();
                    push_item(&mut v, JsonValue::string("play_title"));
                    push_item(&mut v, JsonValue::string("resume_last"));
                    push_item(&mut v, JsonValue::string("pause"));
                    push_item(&mut v, JsonValue::string("resume"));
                    push_item(&mut v, JsonValue::string("next_episode"));
                    push_item(&mut v, JsonValue::string("previous_episode"));
                    push_item(&mut v, JsonValue::string("jump_episode"));
                    push_item(&mut v, JsonValue::string("switch_audio"));
                    push_item(&mut v, JsonValue::string("switch_subtitle"));
                    push_item(&mut v, JsonValue::string("cast_to_device"));
                    push_item(&mut v, JsonValue::string("get_progress"));
                    JsonValue::Array(v)
                });
                push_entry(&mut e, "type", JsonValue::string("string"));
                JsonValue::Object(e)
            });
            push_entry(&mut e, "audio_track", {
                let mut e = new_entries();
                push_entry(&mut e, "description", JsonValue::string("目标音轨，如国语、粤语、英文；用户未指定可省略。"));
                push_entry(&mut e, "type", JsonValue::string("string"));
                JsonValue::Object(e)
            });
            push_entry(&mut e, "episode_number", {
                let mut e = new_entries();
                push_entry(&mut e, "description", JsonValue::string("目标集数。跳到第 5 集填 5。"));
                push_entry(&mut e, "minimum", JsonValue::Number(JsonNumber::PosInt(1)));
                push_entry(&mut e, "type", JsonValue::string("integer"));
                JsonValue::Object(e)
            });
            push_entry(&mut e, "subtitle", {
                let mut e = new_entries();
                push_entry(&mut e, "description", JsonValue::string("目标字幕，如中文字幕、英文字幕、关闭字幕；用户未指定可省略。"));
                push_entry(&mut e, "type", JsonValue::string("string"));
                JsonValue::Object(e)
            });
            push_entry(&mut e, "target_device", {
                let mut e = new_entries();
                push_entry(&mut e, "description", JsonValue::string("投屏目标设备，例如“客厅电视”。"));
                push_entry(&mut e, "type", JsonValue::string("string"));
                JsonValue::Object(e)
            });
            push_entry(&mut e, "title", {
                let mut e = new_entries();
                push_entry(&mut e, "description", JsonValue::string("影片、剧集、节目名称，例如“狂飙”。用户原话出现时必须原样填写。"));
                push_entry(&mut e, "type", JsonValue::string("string"));
                JsonValue::Object(e)
            });
            JsonValue::Object(e)
        });
        push_entry(&mut e, "required", {
            let mut v = new_items();
            push_item(&mut v, JsonValue::string("action"));
            JsonValue::Array(v)
        });
        push_entry(&mut e, "type", JsonValue::string("object"));
        JsonValue::Object(e)
    }
}

/// The parameter schema of `digital_security_monitor`, before decoration.
pub open spec fn digital_security_monitor_parameters() -> JsonView {
    JsonView::Object(digital_security_monitor_entries())
}

/// The entries of the parameter schema of `digital_security_monitor`.
pub open spec fn digital_security_monitor_entries() -> Seq<(Seq<char>, JsonView)> {
    Seq::empty()
        .push(("additionalProperties"@, JsonView::Bool(false)))
        .push(("properties"@, JsonView::Object(
            Seq::empty()
                .push(("action"@, JsonView::Object(
                    Seq::empty()
                        .push(("description"@, JsonView::Str("区域是否有人/有动静/有车/有快递用 query_events；爸爸/妈妈/张三/陌生人/熟人/门口那个是谁用 identify_person。"@)))
                        .push(("enum"@, JsonView::Array(
                            Seq::empty()
                                .push(JsonView::Str("query_events"@))
                                .push(JsonView::Str("identify_person"@)),
                        )))
                        .push(("type"@, JsonView::Str("string"@))),
                )))
                .push(("area"@, JsonView::Object(
                    Seq::empty()
                        .push(("description"@, JsonView::Str("用户提到的区域或房间，例如“门口”“院子”“客厅”“宝宝房间”“阳台”。"@)))
                        .push(("type"@, JsonView::Str("string"@))),
                )))
                .push(("camera_name"@, JsonView::Object(
                    Seq::empty()
                        .push(("description"@, JsonView::Str("明确的摄像头名称；没有摄像头名但有区域时填 area。"@)))
                        .push(("type"@, JsonView::Str("string"@))),
                )))
                .push(("event_type"@, JsonView::Object(
                    Seq::empty()
                        .push(("description"@, JsonView::Str("有人=person；动静=motion；车进出=vehicle；快递=package；进门/回来=entry；不明确填 unknown。"@)))
                        .push(("enum"@, JsonView::Array(
                            Seq::empty()
                                .push(JsonView::Str("person"@))
                                .push(JsonView::Str("motion"@))
                                .push(JsonView::Str("vehicle"@))
                                .push(JsonView::Str("package"@))
                                .push(JsonView::Str("entry"@))
                                .push(JsonView::Str("unknown"@)),
                        )))
                        .push(("type"@, JsonView::Str("string"@))),
                )))
                .push(("identity_query"@, JsonView::Object(
                    Seq::empty()
                        .push(("description"@, JsonView::Str("熟人/已知人=known_person 或 familiar；陌生人=stranger；送快递的=courier；门口那个是谁=current_subject。"@)))
                        .push(("enum"@, JsonView::Array(
                            Seq::empty()
                                .push(JsonView::Str("known_person"@))
                                .push(JsonView::Str("stranger"@))
                                .push(JsonView::Str("familiar"@))
                                .push(JsonView::Str("courier"@))
                                .push(JsonView::Str("current_subject"@)),
                        )))
                        .push(("type"@, JsonView::Str("string"@))),
                )))
                .push(("person_label"@, JsonView::Object(
                    Seq::empty()
                        .push(("description"@, JsonView::Str("已知人脸库标签或人物称谓，例如“爸爸”“妈妈”“张三”。"@)))
                        .push(("type"@, JsonView::Str("string"@))),
                )))
                .push(("time_query"@, JsonView::Object(
                    Seq::empty()
                        .push(("description"@, JsonView::Str("时间窗口原文，例如“刚刚”“刚才”“今天”“下午”“今晚”。必须保留原文。"@)))
                        .push(("type"@, JsonView::Str("string"@))),
                ))),
        )))
        .push(("required"@, JsonView::Array(
            Seq::empty()
                .push(JsonView::Str("action"@)),
        )))
        .push(("type"@, JsonView::Str("object"@)))
}

/// The parameter schema of `digital_security_monitor`, before decoration.
pub fn digital_security_monitor_parameters_value() -> (r: JsonValue)
    ensures
        r@ == digital_security_monitor_parameters(),
{
    {
        let mut e = new_entries();
        push_entry(&mut e, "additionalProperties", JsonValue::Bool(false));
        push_entry(&mut e, "properties", {
            let mut e = new_entries();
            push_entry(&mut e, "action", {
                let mut e = new_entries();
                push_entry(&mut e, "description", JsonValue::string("区域是否有人/有动静/有车/有快递用 query_events；爸爸/妈妈/张三/陌生人/熟人/门口那个是谁用 identify_person。"));
                push_entry(&mut e, "enum", {
                    let mut v = new_items();
                    push_item(&mut v, JsonValue::string("query_events"));
                    push_item(&mut v, JsonValue::string("identify_person"));
                    JsonValue::Array(v)
                });
                push_entry(&mut e, "type", JsonValue::string("string"));
                JsonValue::Object(e)
            });
            push_entry(&mut e, "area", {
                let mut e = new_entries();
                push_entry(&mut e, "description", JsonValue::string("用户提到的区域或房间，例如“门口”“院子”“客厅”“宝宝房间”“阳台”。"));
                push_entry(&mut e, "type", JsonValue::string("string"));
                JsonValue::Object(e)
            });
            push_entry(&mut e, "camera_name", {
                let mut e = new_entries();
                push_entry(&mut e, "description", JsonValue::string("明确的摄像头名称；没有摄像头名但有区域时填 area。"));
                push_entry(&mut e, "type", JsonValue::string("string"));
                JsonValue::Object(e)
            });
            push_entry(&mut e, "event_type", {
                let mut e = new_entries();
                push_entry(&mut e, "description", JsonValue::string("有人=person；动静=motion；车进出=vehicle；快递=package；进门/回来=entry；不明确填 unknown。"));
                push_entry(&mut e, "enum", {
                    let mut v = new_items();
                    push_item(&mut v, JsonValue::string("person"));
                    push_item(&mut v, JsonValue::string("motion"));
                    push_item(&mut v, JsonValue::string("vehicle"));
                    push_item(&mut v, JsonValue::string("package"));
                    push_item(&mut v, JsonValue::string("entry"));
                    push_item(&mut v, JsonValue::string("unknown"));
                    JsonValue::Array(v)
                });
                push_entry(&mut e, "type", JsonValue::string("string"));
                JsonValue::Object(e)
            });
            push_entry(&mut e, "identity_query", {
                let mut e = new_entries();
                push_entry(&mut e, "description", JsonValue::string("熟人/已知人=known_person 或 familiar；陌生人=stranger；送快递的=courier；门口那个是谁=current_subject。"));
                push_entry(&mut e, "enum", {
                    let mut v = new_items();
                    push_item(&mut v, JsonValue::string("known_person"));
                    push_item(&mut v, JsonValue::string("stranger"));
                    push_item(&mut v, JsonValue::string("familiar"));
                    push_item(&mut v, JsonValue::string("courier"));
                    push_item(&mut v, JsonValue::string("current_subject"));
                    JsonValue::Array(v)
                });
                push_entry(&mut e, "type", JsonValue::string("string"));
                JsonValue::Object(e)
            });
            push_entry(&mut e, "person_label", {
                let mut e = new_entries();
                push_entry(&mut e, "description", JsonValue::string("已知人脸库标签或人物称谓，例如“爸爸”“妈妈”“张三”。"));
                push_entry(&mut e, "type", JsonValue::string("string"));
                JsonValue::Object(e)
            });
            push_entry(&mut e, "time_query", {
                let mut e = new_entries();
                push_entry(&mut e, "description", JsonValue::string("时间窗口原文，例如“刚刚”“刚才”“今天”“下午”“今晚”。必须保留原文。"));
                push_entry(&mut e, "type", JsonValue::string("string"));
                JsonValue::Object(e)
            });
            JsonValue::Object(e)
        });
        push_entry(&mut e, "required", {
            let mut v = new_items();
            push_item(&mut v, JsonValue::string("action"));
            JsonValue::Array(v)
        });
        push_entry(&mut e, "type", JsonValue::string("object"));
        JsonValue::Object(e)
    }
}

/// The parameter schema of `digital_document_workspace`, before decoration.
pub open spec fn digital_document_workspace_parameters() -> JsonView {
    JsonView::Object(digital_document_workspace_entries())
}

/// The entries of the parameter schema of `digital_document_workspace`.
pub open spec fn digital_document_workspace_entries() -> Seq<(Seq<char>, JsonView)> {
    Seq::empty()
        .push(("additionalProperties"@, JsonView::Bool(false)))
        .push(("properties"@, JsonView::Object(
            Seq::empty()
                .push(("action"@, JsonView::Object(
                    Seq::empty()
                        .push(("description"@, JsonView::Str("按用户请求选择单步文档动作。"@)))
                        .push(("enum"@, JsonView::Array(
                            Seq::empty()
                                .push(JsonView::Str("pdf_encrypt"@))
                                .push(JsonView::Str("pdf_extract_pages"@))
                                .push(JsonView::Str("pdf_merge"@))
                                .push(JsonView::Str("pdf_rotate"@))
                                .push(JsonView::Str("pdf_watermark"@))
                                .push(JsonView::Str("pdf_extract_form"@))
                                .push(JsonView::Str("word_create"@))
                                .push(JsonView::Str("word_replace_text"@))
                                .push(JsonView::Str("word_extract_comments"@))
                                .push(JsonView::Str("word_add_toc"@))
                                .push(JsonView::Str("ppt_create_from_outline"@))
                                .push(JsonView::Str("spreadsheet_add_formula_column"@))
                                .push(JsonView::Str("spreadsheet_csv_to_xlsx"@))
                                .push(JsonView::Str("spreadsheet_filter_rows"@))
                                .push(JsonView::Str("spreadsheet_create"@))
                                .push(JsonView::Str("document_get_metadata"@))
                                .push(JsonView::Str("ocr_extract_text"@))
                                .push(JsonView::Str("structured_extract_fields"@)),
                        )))
                        .push(("type"@, JsonView::Str("string"@))),
                )))
                .push(("document_type"@, JsonView::Object(
                    Seq::empty()
                        .push(("description"@, JsonView::Str("PDF=pdf；docx/Word=word；PPT=ppt；xlsx/csv/表格=spreadsheet；图片/OCR=image。"@)))
                        .push(("enum"@, JsonView::Array(
                            Seq::empty()
                                .push(JsonView::Str("pdf"@))
                                .push(JsonView::Str("word"@))
                                .push(JsonView::Str("ppt"@))
                                .push(JsonView::Str("spreadsheet"@))
                                .push(JsonView::Str("image"@))
                                .push(JsonView::Str("text"@))
                                .push(JsonView::Str("unknown"@)),
                        )))
                        .push(("type"@, JsonView::Str("string"@))),
                )))
                .push(("fields"@, JsonView::Object(
                    Seq::empty()
                        .push(("description"@, JsonView::Str("要提取的字段，例如金额、日期、甲方、乙方、商户。"@)))
                        .push(("items"@, JsonView::Object(
                            Seq::empty()
                                .push(("type"@, JsonView::Str("string"@))),
                        )))
                        .push(("type"@, JsonView::Str("array"@))),
                )))
                .push(("filter_condition"@, JsonView::Object(
                    Seq::empty()
                        .push(("description"@, JsonView::Str("表格筛选条件，例如“金额大于 1000”。"@)))
                        .push(("type"@, JsonView::Str("string"@))),
                )))
                .push(("find_text"@, JsonView::Object(
                    Seq::empty()
                        .push(("description"@, JsonView::Str("Word 替换的原文字，例如“甲方”。"@)))
                        .push(("type"@, JsonView::Str("string"@))),
                )))
                .push(("formula"@, JsonView::Object(
                    Seq::empty()
                        .push(("description"@, JsonView::Str("表格公式或求和公式描述。"@)))
                        .push(("type"@, JsonView::Str("string"@))),
                )))
                .push(("input_paths"@, JsonView::Object(
                    Seq::empty()
                        .push(("description"@, JsonView::Str("输入文件路径列表。单文件单动作通常只填一个；PDF 合并填多个。"@)))
                        .push(("items"@, JsonView::Object(
                            Seq::empty()
                                .push(("type"@, JsonView::Str("string"@))),
                        )))
                        .push(("type"@, JsonView::Str("array"@))),
                )))
                .push(("outline"@, JsonView::Object(
                    Seq::empty()
                        .push(("description"@, JsonView::Str("PPT/Word 创建的大纲或要点。"@)))
                        .push(("type"@, JsonView::Str("string"@))),
                )))
                .push(("output_path"@, JsonView::Object(
                    Seq::empty()
                        .push(("description"@, JsonView::Str("输出文件路径；用户未指定可省略，由后端决定。"@)))
                        .push(("type"@, JsonView::Str("string"@))),
                )))
                .push(("page_range"@, JsonView::Object(
                    Seq::empty()
                        .push(("description"@, JsonView::Str("页码范围，例如“3-10”。"@)))
                        .push(("type"@, JsonView::Str("string"@))),
                )))
                .push(("password"@, JsonView::Object(
                    Seq::empty()
                        .push(("description"@, JsonView::Str("PDF 加密密码。"@)))
                        .push(("type"@, JsonView::Str("string"@))),
                )))
                .push(("question"@, JsonView::Object(
                    Seq::empty()
                        .push(("description"@, JsonView::Str("文档元信息问题，例如“多少页”“标题是什么”“作者是谁”“出版日期”。"@)))
                        .push(("type"@, JsonView::Str("string"@))),
                )))
                .push(("replace_text"@, JsonView::Object(
                    Seq::empty()
                        .push(("description"@, JsonView::Str("Word 替换的新文字，例如“乙方”。"@)))
                        .push(("type"@, JsonView::Str("string"@))),
                )))
                .push(("rotation"@, JsonView::Object(
                    Seq::empty()
                        .push(("description"@, JsonView::Str("PDF 旋转或横竖屏方向。"@)))
                        .push(("enum"@, JsonView::Array(
                            Seq::empty()
                                .push(JsonView::Str("left"@))
                                .push(JsonView::Str("right"@))
                                .push(JsonView::Str("180"@))
                                .push(JsonView::Str("portrait"@))
                                .push(JsonView::Str("landscape"@)),
                        )))
                        .push(("type"@, JsonView::Str("string"@))),
                )))
                .push(("slide_count"@, JsonView::Object(
                    Seq::empty()
                        .push(("description"@, JsonView::Str("PPT 页数，例如 5 页填 5。"@)))
                        .push(("maximum"@, JsonView::Number(NumberView::PosInt(50))))
                        .push(("minimum"@, JsonView::Number(NumberView::PosInt(1))))
                        .push(("type"@, JsonView::Str("integer"@))),
                )))
                .push(("title"@, JsonView::Object(
                    Seq::empty()
                        .push(("description"@, JsonView::Str("新建文档或 PPT 标题。"@)))
                        .push(("type"@, JsonView::Str("string"@))),
                )))
                .push(("watermark_text"@, JsonView::Object(
                    Seq::empty()
                        .push(("description"@, JsonView::Str("水印文字。"@)))
                        .push(("type"@, JsonView::Str("string"@))),
                ))),
        )))
        .push(("required"@, JsonView::Array(
            Seq::empty()
                .push(JsonView::Str("document_type"@))
                .push(JsonView::Str("action"@)),
        )))
        .push(("type"@, JsonView::Str("object"@)))
}

/// The parameter schema of `digital_document_workspace`, before decoration.
pub fn digital_document_workspace_parameters_value() -> (r: JsonValue)
    ensures
        r@ == digital_document_workspace_parameters(),
{
    {
        let mut e = new_entries();
        push_entry(&mut e, "additionalProperties", JsonValue::Bool(false));
        push_entry(&mut e, "properties", {
            let mut e = new_entries();
            push_entry(&mut e, "action", {
                let mut e = new_entries();
                push_entry(&mut e, "description", JsonValue::string("按用户请求选择单步文档动作。"));
                push_entry(&mut e, "enum", {
                    let mut v = new_items();
                    push_item(&mut v, JsonValue::string("pdf_encrypt"));
                    push_item(&mut v, JsonValue::string("pdf_extract_pages"));
                    push_item(&mut v, JsonValue::string("pdf_merge"));
                    push_item(&mut v, JsonValue::string("pdf_rotate"));
                    push_item(&mut v, JsonValue::string("pdf_watermark"));
                    push_item(&mut v, JsonValue::string("pdf_extract_form"));
                    push_item(&mut v, JsonValue::string("word_create"));
                    push_item(&mut v, JsonValue::string("word_replace_text"));
                    push_item(&mut v, JsonValue::string("word_extract_comments"));
                    push_item(&mut v, JsonValue::string("word_add_toc"));
                    push_item(&mut v, JsonValue::string("ppt_create_from_outline"));
                    push_item(&mut v, JsonValue::string("spreadsheet_add_formula_column"));
                    push_item(&mut v, JsonValue::string("spreadsheet_csv_to_xlsx"));
                    push_item(&mut v, JsonValue::string("spreadsheet_filter_rows"));
                    push_item(&mut v, JsonValue::string("spreadsheet_create"));
                    push_item(&mut v, JsonValue::string("document_get_metadata"));
                    push_item(&mut v, JsonValue::string("ocr_extract_text"));
                    push_item(&mut v, JsonValue::string("structured_extract_fields"));
                    JsonValue::Array(v)
                });
                push_entry(&mut e, "type", JsonValue::string("string"));
                JsonValue::Object(e)
            });
            push_entry(&mut e, "document_type", {
                let mut e = new_entries();
                push_entry(&mut e, "description", JsonValue::string("PDF=pdf；docx/Word=word；PPT=ppt；xlsx/csv/表格=spreadsheet；图片/OCR=image。"));
                push_entry(&mut e, "enum", {
                    let mut v = new_items();
                    push_item(&mut v, JsonValue::string("pdf"));
                    push_item(&mut v, JsonValue::string("word"));
                    push_item(&mut v, JsonValue::string("ppt"));
                    push_item(&mut v, JsonValue::string("spreadsheet"));
                    push_item(&mut v, JsonValue::string("image"));
                    push_item(&mut v, JsonValue::string("text"));
                    push_item(&mut v, JsonValue::string("unknown"));
                    JsonValue::Array(v)
                });
                push_entry(&mut e, "type", JsonValue::string("string"));
                JsonValue::Object(e)
            });
            push_entry(&mut e, "fields", {
                let mut e = new_entries();
                push_entry(&mut e, "description", JsonValue::string("要提取的字段，例如金额、日期、甲方、乙方、商户。"));
                push_entry(&mut e, "items", {
                    let mut e = new_entries();
                    push_entry(&mut e, "type", JsonValue::string("string"));
                    JsonValue::Object(e)
                });
                push_entry(&mut e, "type", JsonValue::string("array"));
                JsonValue::Object(e)
            });
            push_entry(&mut e, "filter_condition", {
                let mut e = new_entries();
                push_entry(&mut e, "description", JsonValue::string("表格筛选条件，例如“金额大于 1000”。"));
                push_entry(&mut e, "type", JsonValue::string("string"));
                JsonValue::Object(e)
            });
            push_entry(&mut e, "find_text", {
                let mut e = new_entries();
                push_entry(&mut e, "description", JsonValue::string("Word 替换的原文字，例如“甲方”。"));
                push_entry(&mut e, "type", JsonValue::string("string"));
                JsonValue::Object(e)
            });
            push_entry(&mut e, "formula", {
                let mut e = new_entries();
                push_entry(&mut e, "description", JsonValue::string("表格公式或求和公式描述。"));
                push_entry(&mut e, "type", JsonValue::string("string"));
                JsonValue::Object(e)
            });
            push_entry(&mut e, "input_paths", {
                let mut e = new_entries();
                push_entry(&mut e, "description", JsonValue::string("输入文件路径列表。单文件单动作通常只填一个；PDF 合并填多个。"));
                push_entry(&mut e, "items", {
                    let mut e = new_entries();
                    push_entry(&mut e, "type", JsonValue::string("string"));
                    JsonValue::Object(e)
                });
                push_entry(&mut e, "type", JsonValue::string("array"));
                JsonValue::Object(e)
            });
            push_entry(&mut e, "outline", {
                let mut e = new_entries();
                push_entry(&mut e, "description", JsonValue::string("PPT/Word 创建的大纲或要点。"));
                push_entry(&mut e, "type", JsonValue::string("string"));
                JsonValue::Object(e)
            });
            push_entry(&mut e, "output_path", {
                let mut e = new_entries();
                push_entry(&mut e, "description", JsonValue::string("输出文件路径；用户未指定可省略，由后端决定。"));
                push_entry(&mut e, "type", JsonValue::string("string"));
                JsonValue::Object(e)
            });
            push_entry(&mut e, "page_range", {
                let mut e = new_entries();
                push_entry(&mut e, "description", JsonValue::string("页码范围，例如“3-10”。"));
                push_entry(&mut e, "type", JsonValue::string("string"));
                JsonValue::Object(e)
            });
            push_entry(&mut e, "password", {
                let mut e = new_entries();
                push_entry(&mut e, "description", JsonValue::string("PDF 加密密码。"));
                push_entry(&mut e, "type", JsonValue::string("string"));
                JsonValue::Object(e)
            });
            push_entry(&mut e, "question", {
                let mut e = new_entries();
                push_entry(&mut e, "description", JsonValue::string("文档元信息问题，例如“多少页”“标题是什么”“作者是谁”“出版日期”。"));
                push_entry(&mut e, "type", JsonValue::string("string"));
                JsonValue::Object(e)
            });
            push_entry(&mut e, "replace_text", {
                let mut e = new_entries();
                push_entry(&mut e, "description", JsonValue::string("Word 替换的新文字，例如“乙方”。"));
                push_entry(&mut e, "type", JsonValue::string("string"));
                JsonValue::Object(e)
            });
            push_entry(&mut e, "rotation", {
                let mut e = new_entries();
                push_entry(&mut e, "description", JsonValue::string("PDF 旋转或横竖屏方向。"));
                push_entry(&mut e, "enum", {
                    let mut v = new_items();
                    push_item(&mut v, JsonValue::string("left"));
                    push_item(&mut v, JsonValue::string("right"));
                    push_item(&mut v, JsonValue::string("180"));
                    push_item(&mut v, JsonValue::string("portrait"));
                    push_item(&mut v, JsonValue::string("landscape"));
                    JsonValue::Array(v)
                });
                push_entry(&mut e, "type", JsonValue::string("string"));
                JsonValue::Object(e)
            });
            push_entry(&mut e, "slide_count", {
                let mut e = new_entries();
                push_entry(&mut e, "description", JsonValue::string("PPT 页数，例如 5 页填 5。"));
                push_entry(&mut e, "maximum", JsonValue::Number(JsonNumber::PosInt(50)));
                push_entry(&mut e, "minimum", JsonValue::Number(JsonNumber::PosInt(1)));
                push_entry(&mut e, "type", JsonValue::string("integer"));
                JsonValue::Object(e)
            });
            push_entry(&mut e, "title", {
                let mut e = new_entries();
                push_entry(&mut e, "description", JsonValue::string("新建文档或 PPT 标题。"));
                push_entry(&mut e, "type", JsonValue::string("string"));
                JsonValue::Object(e)
            });
            push_entry(&mut e, "watermark_text", {
                let mut e = new_entries();
                push_entry(&mut e, "description", JsonValue::string("水印文字。"));
                push_entry(&mut e, "type", JsonValue::string("string"));
                JsonValue::Object(e)
            });
            JsonValue::Object(e)
        });
        push_entry(&mut e, "required", {
            let mut v = new_items();
            push_item(&mut v, JsonValue::string("document_type"));
            push_item(&mut v, JsonValue::string("action"));
            JsonValue::Array(v)
        });
        push_entry(&mut e, "type", JsonValue::string("object"));
        JsonValue::Object(e)
    }
}

/// The parameter schema of `digital_text_assistant`, before decoration.
pub open spec fn digital_text_assistant_parameters() -> JsonView {
    JsonView::Object(digital_text_assistant_entries())
}

/// The entries of the parameter schema of `digital_text_assistant`.
pub open spec fn digital_text_assistant_entries() -> Seq<(Seq<char>, JsonView)> {
    Seq::empty()
        .push(("additionalProperties"@, JsonView::Bool(false)))
        .push(("properties"@, JsonView::Object(
            Seq::empty()
                .push(("action"@, JsonView::Object(
                    Seq::empty()
                        .push(("description"@, JsonView::Str("总结=summarize；翻译=translate；润色/正式一点/简洁点=rewrite；扩写=expand；压缩到指定字数=compress。"@)))
                        .push(("enum"@, JsonView::Array(
                            Seq::empty()
                                .push(JsonView::Str("summarize"@))
                                .push(JsonView::Str("translate"@))
                                .push(JsonView::Str("rewrite"@))
                                .push(JsonView::Str("expand"@))
                                .push(JsonView::Str("compress"@)),
                        )))
                        .push(("type"@, JsonView::Str("string"@))),
                )))
                .push(("max_chars"@, JsonView::Object(
                    Seq::empty()
                        .push(("description"@, JsonView::Str("压缩目标字数，例如 200 字填 200。"@)))
                        .push(("maximum"@, JsonView::Number(NumberView::PosInt(2000))))
                        .push(("minimum"@, JsonView::Number(NumberView::PosInt(1))))
                        .push(("type"@, JsonView::Str("integer"@))),
                )))
                .push(("source_language"@, JsonView::Object(
                    Seq::empty()
                        .push(("description"@, JsonView::Str("源语言；用户未说明可省略。"@)))
                        .push(("type"@, JsonView::Str("string"@))),
                )))
                .push(("style"@, JsonView::Object(
                    Seq::empty()
                        .push(("description"@, JsonView::Str("改写风格，例如“正式”“简洁”“口语化”。"@)))
                        .push(("type"@, JsonView::Str("string"@))),
                )))
                .push(("target_language"@, JsonView::Object(
                    Seq::empty()
                        .push(("description"@, JsonView::Str("目标语言，例如“中文”“英文”。"@)))
                        .push(("type"@, JsonView::Str("string"@))),
                )))
                .push(("text"@, JsonView::Object(
                    Seq::empty()
                        .push(("description"@, JsonView::Str("待处理的短文本、句子、段落或标题。"@)))
                        .push(("type"@, JsonView::Str("string"@))),
                ))),
        )))
        .push(("required"@, JsonView::Array(
            Seq::empty()
                .push(JsonView::Str("action"@))
                .push(JsonView::Str("text"@)),
        )))
        .push(("type"@, JsonView::Str("object"@)))
}

/// The parameter schema of `digital_text_assistant`, before decoration.
pub fn digital_text_assistant_parameters_value() -> (r: JsonValue)
    ensures
        r@ == digital_text_assistant_parameters(),
{
    {
        let mut e = new_entries();
        push_entry(&mut e, "additionalProperties", JsonValue::Bool(false));
        push_entry(&mut e, "properties", {
            let mut e = new_entries();
            push_entry(&mut e, "action", {
                let mut e = new_entries();
                push_entry(&mut e, "description", JsonValue::string("总结=summarize；翻译=translate；润色/正式一点/简洁点=rewrite；扩写=expand；压缩到指定字数=compress。"));
                push_entry(&mut e, "enum", {
                    let mut v = new_items();
                    push_item(&mut v, JsonValue::string("summarize"));
                    push_item(&mut v, JsonValue::string("translate"));
                    push_item(&mut v, JsonValue::string("rewrite"));
                    push_item(&mut v, JsonValue::string("expand"));
                    push_item(&mut v, JsonValue::string("compress"));
                    JsonValue::Array(v)
                });
                push_entry(&mut e, "type", JsonValue::string("string"));
                JsonValue::Object(e)
            });
            push_entry(&mut e, "max_chars", {
                let mut e = new_entries();
                push_entry(&mut e, "description", JsonValue::string("压缩目标字数，例如 200 字填 200。"));
                push_entry(&mut e, "maximum", JsonValue::Number(JsonNumber::PosInt(2000)));
                push_entry(&mut e, "minimum", JsonValue::Number(JsonNumber::PosInt(1)));
                push_entry(&mut e, "type", JsonValue::string("integer"));
                JsonValue::Object(e)
            });
            push_entry(&mut e, "source_language", {
                let mut e = new_entries();
                push_entry(&mut e, "description", JsonValue::string("源语言；用户未说明可省略。"));
                push_entry(&mut e, "type", JsonValue::string("string"));
                JsonValue::Object(e)
            });
            push_entry(&mut e, "style", {
                let mut e = new_entries();
                push_entry(&mut e, "description", JsonValue::string("改写风格，例如“正式”“简洁”“口语化”。"));
                push_entry(&mut e, "type", JsonValue::string("string"));
                JsonValue::Object(e)
            });
            push_entry(&mut e, "target_language", {
                let mut e = new_entries();
                push_entry(&mut e, "description", JsonValue::string("目标语言，例如“中文”“英文”。"));
                push_entry(&mut e, "type", JsonValue::string("string"));
                JsonValue::Object(e)
            });
            push_entry(&mut e, "text", {
                let mut e = new_entries();
                push_entry(&mut e, "description", JsonValue::string("待处理的短文本、句子、段落或标题。"));
                push_entry(&mut e, "type", JsonValue::string("string"));
                JsonValue::Object(e)
            });
            JsonValue::Object(e)
        });
        push_entry(&mut e, "required", {
            let mut v = new_items();
            push_item(&mut v, JsonValue::string("action"));
            push_item(&mut v, JsonValue::string("text"));
            JsonValue::Array(v)
        });
        push_entry(&mut e, "type", JsonValue::string("object"));
        JsonValue::Object(e)
    }
}

/// The parameter schema of `digital_note_knowledge`, before decoration.
pub open spec fn digital_note_knowledge_parameters() -> JsonView {
    JsonView::Object(digital_note_knowledge_entries())
}

/// The entries of the parameter schema of `digital_note_knowledge`.
pub open spec fn digital_note_knowledge_entries() -> Seq<(Seq<char>, JsonView)> {
    Seq::empty()
        .push(("additionalProperties"@, JsonView::Bool(false)))
        .push(("properties"@, JsonView::Object(
            Seq::empty()
                .push(("action"@, JsonView::Object(
                    Seq::empty()
                        .push(("description"@, JsonView::Str("笔记标主题=tag_note；关联两条笔记=link_notes；新建主题=create_topic；找关键词=search_notes；有没有写过/问答=question_notes。"@)))
                        .push(("enum"@, JsonView::Array(
                            Seq::empty()
                                .push(JsonView::Str("tag_note"@))
                                .push(JsonView::Str("link_notes"@))
                                .push(JsonView::Str("create_topic"@))
                                .push(JsonView::Str("search_notes"@))
                                .push(JsonView::Str("question_notes"@)),
                        )))
                        .push(("type"@, JsonView::Str("string"@))),
                )))
                .push(("note_id"@, JsonView::Object(
                    Seq::empty()
                        .push(("description"@, JsonView::Str("单条笔记 ID。"@)))
                        .push(("type"@, JsonView::Str("string"@))),
                )))
                .push(("note_ids"@, JsonView::Object(
                    Seq::empty()
                        .push(("description"@, JsonView::Str("需要关联的笔记 ID 列表。"@)))
                        .push(("items"@, JsonView::Object(
                            Seq::empty()
                                .push(("type"@, JsonView::Str("string"@))),
                        )))
                        .push(("type"@, JsonView::Str("array"@))),
                )))
                .push(("query"@, JsonView::Object(
                    Seq::empty()
                        .push(("description"@, JsonView::Str("关键词或问题，例如“RAG”“OAuth”“我有没有写过关于 K8s 的笔记”。"@)))
                        .push(("type"@, JsonView::Str("string"@))),
                )))
                .push(("topic"@, JsonView::Object(
                    Seq::empty()
                        .push(("description"@, JsonView::Str("主题名，例如“K8s”。用户原话出现时必须原样填写。"@)))
                        .push(("type"@, JsonView::Str("string"@))),
                ))),
        )))
        .push(("required"@, JsonView::Array(
            Seq::empty()
                .push(JsonView::Str("action"@)),
        )))
        .push(("type"@, JsonView::Str("object"@)))
}

/// The parameter schema of `digital_note_knowledge`, before decoration.
pub fn digital_note_knowledge_parameters_value() -> (r: JsonValue)
    ensures
        r@ == digital_note_knowledge_parameters(),
{
    {
        let mut e = new_entries();
        push_entry(&mut e, "additionalProperties", JsonValue::Bool(false));
        push_entry(&mut e, "properties", {
            let mut e = new_entries();
            push_entry(&mut e, "action", {
                let mut e = new_entries();
                push_entry(&mut e, "description", JsonValue::string("笔记标主题=tag_note；关联两条笔记=link_notes；新建主题=create_topic；找关键词=search_notes；有没有写过/问答=question_notes。"));
                push_entry(&mut e, "enum", {
                    let mut v = new_items();
                    push_item(&mut v, JsonValue::string("tag_note"));
                    push_item(&mut v, JsonValue::string("link_notes"));
                    push_item(&mut v, JsonValue::string("create_topic"));
                    push_item(&mut v, JsonValue::string("search_notes"));
                    push_item(&mut v, JsonValue::string("question_notes"));
                    JsonValue::Array(v)
                });
                push_entry(&mut e, "type", JsonValue::string("string"));
                JsonValue::Object(e)
            });
            push_entry(&mut e, "note_id", {
                let mut e = new_entries();
                push_entry(&mut e, "description", JsonValue::string("单条笔记 ID。"));
                push_entry(&mut e, "type", JsonValue::string("string"));
                JsonValue::Object(e)
            });
            push_entry(&mut e, "note_ids", {
                let mut e = new_entries();
                push_entry(&mut e, "description", JsonValue::string("需要关联的笔记 ID 列表。"));
                push_entry(&mut e, "items", {
                    let mut e = new_entries();
                    push_entry(&mut e, "type", JsonValue::string("string"));
                    JsonValue::Object(e)
                });
                push_entry(&mut e, "type", JsonValue::string("array"));
                JsonValue::Object(e)
            });
            push_entry(&mut e, "query", {
                let mut e = new_entries();
                push_entry(&mut e, "description", JsonValue::string("关键词或问题，例如“RAG”“OAuth”“我有没有写过关于 K8s 的笔记”。"));
                push_entry(&mut e, "type", JsonValue::string("string"));
                JsonValue::Object(e)
            });
            push_entry(&mut e, "topic", {
                let mut e = new_entries();
                push_entry(&mut e, "description", JsonValue::string("主题名，例如“K8s”。用户原话出现时必须原样填写。"));
                push_entry(&mut e, "type", JsonValue::string("string"));
                JsonValue::Object(e)
            });
            JsonValue::Object(e)
        });
        push_entry(&mut e, "required", {
            let mut v = new_items();
            push_item(&mut v, JsonValue::string("action"));
            JsonValue::Array(v)
        });
        push_entry(&mut e, "type", JsonValue::string("object"));
        JsonValue::Object(e)
    }
}

/// Every built-in tool as it is declared to the model, in table order.
pub open spec fn tool_specs_spec() -> Seq<ToolSpecView> {
    Seq::empty()
        .push(ToolSpecView {
            tool_type: "function"@,
            name: "pwd"@,
            description: "Return the current working directory."@,
            parameters: decorated(pwd_parameters()),
        })
        .push(ToolSpecView {
            tool_type: "function"@,
            name: "list_dir"@,
            description: "List files and directories under a path."@,
            parameters: decorated(list_dir_parameters()),
        })
        .push(ToolSpecView {
            tool_type: "function"@,
            name: "read_file"@,
            description: "Read a UTF-8 text file with an output byte limit."@,
            parameters: decorated(read_file_parameters()),
        })
        .push(ToolSpecView {
            tool_type: "function"@,
            name: "search_text"@,
            description: "Search for text with ripgrep when available."@,
            parameters: decorated(search_text_parameters()),
        })
        .push(ToolSpecView {
            tool_type: "function"@,
            name: "shell_exec"@,
            description: "Run a small allowlisted Linux command without invoking a shell. Always provide both `command` and `args`; use `args: []` when the command has no arguments. For system configuration, prefer concrete commands such as uname, whoami, env, df, ps, or ls."@,
            parameters: decorated(shell_exec_parameters()),
        })
        .push(ToolSpecView {
            tool_type: "function"@,
            name: "smart_home_control_speaker"@,
            description: "Submit a normalized smart-home command for speaker volume control. Use this for volume up/down, mute, or setting an exact volume."@,
            parameters: decorated(smart_home_control_speaker_parameters()),
        })
        .push(ToolSpecView {
            tool_type: "function"@,
            name: "smart_home_control_light"@,
            description: "Submit a normalized smart-home command for light power, brightness, and RGB color. For color temperature or warm/neutral/white/cool tone, prefer smart_home_control_light_temperature."@,
            parameters: decorated(smart_home_control_light_parameters()),
        })
        .push(ToolSpecView {
            tool_type: "function"@,
            name: "smart_home_control_light_temperature"@,
            description: "Submit a normalized smart-home command for light color temperature and tone. Use this for 色温, 调冷, 调暖, 暖光, 中性光, 自然光, 白光, or 冷光. Kelvin values must be full integer K values: 1000K => 1000, 4000K => 4000, never 100 or 400."@,
            parameters: decorated(smart_home_control_light_temperature_parameters()),
        })
        .push(ToolSpecView {
            tool_type: "function"@,
            name: "smart_home_control_curtain"@,
            description: "Submit a normalized smart-home command for curtains, blinds, rollers, and openers."@,
            parameters: decorated(smart_home_control_curtain_parameters()),
        })
        .push(ToolSpecView {
            tool_type: "function"@,
            name: "smart_home_control_power"@,
            description: "Submit a normalized smart-home command for outlets and wall switches."@,
            parameters: decorated(smart_home_control_power_parameters()),
        })
        .push(ToolSpecView {
            tool_type: "function"@,
            name: "smart_home_control_scene"@,
            description: "Submit a normalized smart-home command to activate or deactivate a predefined home scene mode."@,
            parameters: decorated(smart_home_control_scene_parameters()),
        })
        .push(ToolSpecView {
            tool_type: "function"@,
            name: "digital_file_manager"@,
            description: "Inspect a known file path or directly list/count one directory. Use for file attributes, file size, directory contents, and immediate file counts."@,
            parameters: decorated(digital_file_manager_parameters()),
        })
        .push(ToolSpecView {
            tool_type: "function"@,
            name: "digital_photo_library"@,
            description: "Submit a normalized photo-library query. Use for album discovery, shared albums, album name search, finding which album contains a natural-language photo target, and single-photo capture metadata."@,
            parameters: decorated(digital_photo_library_parameters()),
        })
        .push(ToolSpecView {
            tool_type: "function"@,
            name: "digital_media_control"@,
            description: "Submit a normalized media playback command. Use for playing a title, pause/resume, episode navigation, switching audio/subtitle, casting, and progress lookup."@,
            parameters: decorated(digital_media_control_parameters()),
        })
        .push(ToolSpecView {
            tool_type: "function"@,
            name: "digital_security_monitor"@,
            description: "Submit a normalized camera/security query. Use for recent events, motion/person/vehicle/package checks, and identity recognition against known face labels."@,
            parameters: decorated(digital_security_monitor_parameters()),
        })
        .push(ToolSpecView {
            tool_type: "function"@,
            name: "digital_document_workspace"@,
            description: "Submit a normalized document operation. Use for PDF, Word, PPT, spreadsheet, OCR, structured extraction, and file-level document metadata queries. Current implementation is a mock payload for backend integration."@,
            parameters: decorated(digital_document_workspace_parameters()),
        })
        .push(ToolSpecView {
            tool_type: "function"@,
            name: "digital_text_assistant"@,
            description: "Submit a short-text language task. Use for summarization, translation, polishing, style rewrite, expansion, and compression of short text."@,
            parameters: decorated(digital_text_assistant_parameters()),
        })
        .push(ToolSpecView {
            tool_type: "function"@,
            name: "digital_note_knowledge"@,
            description: "Submit a normalized note/knowledge-base operation. Use for tagging notes, linking notes, creating topics, keyword search, and simple note QA."@,
            parameters: decorated(digital_note_knowledge_parameters()),
        })
}

/// No two built-in tools share a name; every built-in tool is declared as a
/// function, declares a string `tool_title` argument, and requires it first
/// and only once.
pub proof fn lemma_tool_table()
    ensures
        forall|i: int, j: int|
            0 <= i < tool_specs_spec().len() && 0 <= j < tool_specs_spec().len() && i != j
                ==> tool_specs_spec()[i].name != tool_specs_spec()[j].name,
        forall|i: int|
            0 <= i < tool_specs_spec().len() ==> (#[trigger] tool_specs_spec()[i]).tool_type
                == "function"@,
        forall|i: int|
            0 <= i < tool_specs_spec().len() ==> required_names(
                (#[trigger] tool_specs_spec()[i]).parameters,
            ).len() > 0 && required_names(tool_specs_spec()[i].parameters)[0] == "tool_title"@,
        forall|i: int, k: int|
            0 <= i < tool_specs_spec().len() && 0 < k < required_names(
                tool_specs_spec()[i].parameters,
            ).len() ==> #[trigger] required_names(tool_specs_spec()[i].parameters)[k]
                != "tool_title"@,
        forall|i: int|
            0 <= i < tool_specs_spec().len() ==> (get_field(
                (#[trigger] tool_specs_spec()[i]).parameters,
                "properties"@,
            ) matches Some(JsonView::Object(p)) && lookup(p, "tool_title"@) == Some(title_schema())),
        get_field(title_schema(), "type"@) == Some(JsonView::Str("string"@)),
{
    reveal_strlit("digital_document_workspace");
    reveal_strlit("digital_file_manager");
    reveal_strlit("digital_media_control");
    reveal_strlit("digital_note_knowledge");
    reveal_strlit("digital_photo_library");
    reveal_strlit("digital_security_monitor");
    reveal_strlit("digital_text_assistant");
    reveal_strlit("list_dir");
    reveal_strlit("pwd");
    reveal_strlit("read_file");
    reveal_strlit("search_text");
    reveal_strlit("shell_exec");
    reveal_strlit("smart_home_control_curtain");
    reveal_strlit("smart_home_control_light");
    reveal_strlit("smart_home_control_light_temperature");
    reveal_strlit("smart_home_control_power");
    reveal_strlit("smart_home_control_scene");
    reveal_strlit("smart_home_control_speaker");
    let s = tool_specs_spec();
    assert(s[0].name.len() != s[1].name.len());
    assert(s[0].name.len() != s[2].name.len());
    assert(s[0].name.len() != s[3].name.len());
    assert(s[0].name.len() != s[4].name.len());
    assert(s[0].name.len() != s[5].name.len());
    assert(s[0].name.len() != s[6].name.len());
    assert(s[0].name.len() != s[7].name.len());
    assert(s[0].name.len() != s[8].name.len());
    assert(s[0].name.len() != s[9].name.len());
    assert(s[0].name.len() != s[10].name.len());
    assert(s[0].name.len() != s[11].name.len());
    assert(s[0].name.len() != s[12].name.len());
    assert(s[0].name.len() != s[13].name.len());
    assert(s[0].name.len() != s[14].name.len());
    assert(s[0].name.len() != s[15].name.len());
    assert(s[0].name.len() != s[16].name.len());
    assert(s[0].name.len() != s[17].name.len());
    assert(s[1].name.len() != s[2].name.len());
    assert(s[1].name.len() != s[3].name.len());
    assert(s[1].name.len() != s[4].name.len());
    assert(s[1].name.len() != s[5].name.len());
    assert(s[1].name.len() != s[6].name.len());
    assert(s[1].name.len() != s[7].name.len());
    assert(s[1].name.len() != s[8].name.len());
    assert(s[1].name.len() != s[9].name.len());
    assert(s[1].name.len() != s[10].name.len());
    assert(s[1].name.len() != s[11].name.len());
    assert(s[1].name.len() != s[12].name.len());
    assert(s[1].name.len() != s[13].name.len());
    assert(s[1].name.len() != s[14].name.len());
    assert(s[1].name.len() != s[15].name.len());
    assert(s[1].name.len() != s[16].name.len());
    assert(s[1].name.len() != s[17].name.len());
    assert(s[2].name.len() != s[3].name.len());
    assert(s[2].name.len() != s[4].name.len());
    assert(s[2].name.len() != s[5].name.len());
    assert(s[2].name.len() != s[6].name.len());
    assert(s[2].name.len() != s[7].name.len());
    assert(s[2].name.len() != s[8].name.len());
    assert(s[2].name.len() != s[9].name.len());
    assert(s[2].name.len() != s[10].name.len());
    assert(s[2].name.len() != s[11].name.len());
    assert(s[2].name.len() != s[12].name.len());
    assert(s[2].name.len() != s[13].name.len());
    assert(s[2].name.len() != s[14].name.len());
    assert(s[2].name.len() != s[15].name.len());
    assert(s[2].name.len() != s[16].name.len());
    assert(s[2].name.len() != s[17].name.len());
    assert(s[3].name.len() != s[4].name.len());
    assert(s[3].name.len() != s[5].name.len());
    assert(s[3].name.len() != s[6].name.len());
    assert(s[3].name.len() != s[7].name.len());
    assert(s[3].name.len() != s[8].name.len());
    assert(s[3].name.len() != s[9].name.len());
    assert(s[3].name.len() != s[10].name.len());
    assert(s[3].name.len() != s[11].name.len());
    assert(s[3].name.len() != s[12].name.len());
    assert(s[3].name.len() != s[13].name.len());
    assert(s[3].name.len() != s[14].name.len());
    assert(s[3].name.len() != s[15].name.len());
    assert(s[3].name.len() != s[16].name.len());
    assert(s[3].name.len() != s[17].name.len());
    assert(s[4].name.len() != s[5].name.len());
    assert(s[4].name.len() != s[6].name.len());
    assert(s[4].name.len() != s[7].name.len());
    assert(s[4].name.len() != s[8].name.len());
    assert(s[4].name.len() != s[9].name.len());
    assert(s[4].name.len() != s[10].name.len());
    assert(s[4].name.len() != s[11].name.len());
    assert(s[4].name.len() != s[12].name.len());
    assert(s[4].name.len() != s[13].name.len());
    assert(s[4].name.len() != s[14].name.len());
    assert(s[4].name.len() != s[15].name.len());
    assert(s[4].name.len() != s[16].name.len());
    assert(s[4].name.len() != s[17].name.len());
    assert(s[5].name.len() != s[6].name.len());
    assert(s[5].name.len() != s[7].name.len());
    assert(s[5].name[19] != s[8].name[19]);
    assert(s[5].name.len() != s[9].name.len());
    assert(s[5].name.len() != s[10].name.len());
    assert(s[5].name.len() != s[11].name.len());
    assert(s[5].name.len() != s[12].name.len());
    assert(s[5].name.len() != s[13].name.len());
    assert(s[5].name.len() != s[14].name.len());
    assert(s[5].name[0] != s[15].name[0]);
    assert(s[5].name.len() != s[16].name.len());
    assert(s[5].name.len() != s[17].name.len());
    assert(s[6].name.len() != s[7].name.len());
    assert(s[6].name.len() != s[8].name.len());
    assert(s[6].name[19] != s[9].name[19]);
    assert(s[6].name[19] != s[10].name[19]);
    assert(s[6].name.len() != s[11].name.len());
    assert(s[6].name.len() != s[12].name.len());
    assert(s[6].name.len() != s[13].name.len());
    assert(s[6].name[0] != s[14].name[0]);
    assert(s[6].name.len() != s[15].name.len());
    assert(s[6].name.len() != s[16].name.len());
    assert(s[6].name.len() != s[17].name.len());
    assert(s[7].name.len() != s[8].name.len());
    assert(s[7].name.len() != s[9].name.len());
    assert(s[7].name.len() != s[10].name.len());
    assert(s[7].name.len() != s[11].name.len());
    assert(s[7].name.len() != s[12].name.len());
    assert(s[7].name.len() != s[13].name.len());
    assert(s[7].name.len() != s[14].name.len());
    assert(s[7].name.len() != s[15].name.len());
    assert(s[7].name.len() != s[16].name.len());
    assert(s[7].name.len() != s[17].name.len());
    assert(s[8].name.len() != s[9].name.len());
    assert(s[8].name.len() != s[10].name.len());
    assert(s[8].name.len() != s[11].name.len());
    assert(s[8].name.len() != s[12].name.len());
    assert(s[8].name.len() != s[13].name.len());
    assert(s[8].name.len() != s[14].name.len());
    assert(s[8].name[0] != s[15].name[0]);
    assert(s[8].name.len() != s[16].name.len());
    assert(s[8].name.len() != s[17].name.len());
    assert(s[9].name[19] != s[10].name[19]);
    assert(s[9].name.len() != s[11].name.len());
    assert(s[9].name.len() != s[12].name.len());
    assert(s[9].name.len() != s[13].name.len());
    assert(s[9].name[0] != s[14].name[0]);
    assert(s[9].name.len() != s[15].name.len());
    assert(s[9].name.len() != s[16].name.len());
    assert(s[9].name.len() != s[17].name.len());
    assert(s[10].name.len() != s[11].name.len());
    assert(s[10].name.len() != s[12].name.len());
    assert(s[10].name.len() != s[13].name.len());
    assert(s[10].name[0] != s[14].name[0]);
    assert(s[10].name.len() != s[15].name.len());
    assert(s[10].name.len() != s[16].name.len());
    assert(s[10].name.len() != s[17].name.len());
    assert(s[11].name.len() != s[12].name.len());
    assert(s[11].name.len() != s[13].name.len());
    assert(s[11].name.len() != s[14].name.len());
    assert(s[11].name.len() != s[15].name.len());
    assert(s[11].name.len() != s[16].name.len());
    assert(s[11].name.len() != s[17].name.len());
    assert(s[12].name[8] != s[13].name[8]);
    assert(s[12].name.len() != s[14].name.len());
    assert(s[12].name.len() != s[15].name.len());
    assert(s[12].name.len() != s[16].name.len());
    assert(s[12].name.len() != s[17].name.len());
    assert(s[13].name.len() != s[14].name.len());
    assert(s[13].name.len() != s[15].name.len());
    assert(s[13].name.len() != s[16].name.len());
    assert(s[13].name.len() != s[17].name.len());
    assert(s[14].name.len() != s[15].name.len());
    assert(s[14].name.len() != s[16].name.len());
    assert(s[14].name.len() != s[17].name.len());
    assert(s[15].name.len() != s[16].name.len());
    assert(s[15].name.len() != s[17].name.len());
    assert(s[16].name[8] != s[17].name[8]);
    lemma_pwd_schema();
    lemma_list_dir_schema();
    lemma_read_file_schema();
    lemma_search_text_schema();
    lemma_shell_exec_schema();
    lemma_smart_home_control_speaker_schema();
    lemma_smart_home_control_light_schema();
    lemma_smart_home_control_light_temperature_schema();
    lemma_smart_home_control_curtain_schema();
    lemma_smart_home_control_power_schema();
    lemma_smart_home_control_scene_schema();
    lemma_digital_file_manager_schema();
    lemma_digital_photo_library_schema();
    lemma_digital_media_control_schema();
    lemma_digital_security_monitor_schema();
    lemma_digital_document_workspace_schema();
    lemma_digital_text_assistant_schema();
    lemma_digital_note_knowledge_schema();
    assert(get_field(title_schema(), "type"@) == Some(JsonView::Str("string"@)));
}

/// The decorated schema of `pwd` requires `tool_title` first and only once,
/// and declares it with the title schema.
proof fn lemma_pwd_schema()
    ensures
        required_names(decorated(pwd_parameters())).len() > 0,
        required_names(decorated(pwd_parameters()))[0] == "tool_title"@,
        forall|k: int|
            0 < k < required_names(decorated(pwd_parameters())).len() ==> #[trigger] required_names(
                decorated(pwd_parameters()),
            )[k] != "tool_title"@,
        get_field(decorated(pwd_parameters()), "properties"@) matches Some(JsonView::Object(p))
            && lookup(p, "tool_title"@) == Some(title_schema()),
{
    reveal_strlit("tool_title");
    reveal_strlit("required");
    reveal_strlit("additionalProperties");
    reveal_strlit("properties");
    reveal_strlit("type");
    reveal_with_fuel(lookup, 5);
    assert("additionalProperties"@.len() != "required"@.len());
    assert("properties"@.len() != "required"@.len());
    assert("type"@.len() != "required"@.len());
    assert("additionalProperties"@.len() != "properties"@.len());
    assert("required"@.len() != "properties"@.len());
    assert("type"@.len() != "properties"@.len());
    let e = pwd_entries();
    assert(lookup(e, "required"@) is None);
    lemma_decorated_required(e);
    assert(lookup(e, "properties"@) matches Some(JsonView::Object(_)));
    lemma_decorated_requires_title(e);
}

/// The decorated schema of `list_dir` requires `tool_title` first and only once,
/// and declares it with the title schema.
proof fn lemma_list_dir_schema()
    ensures
        required_names(decorated(list_dir_parameters())).len() > 0,
        required_names(decorated(list_dir_parameters()))[0] == "tool_title"@,
        forall|k: int|
            0 < k < required_names(decorated(list_dir_parameters())).len() ==> #[trigger] required_names(
                decorated(list_dir_parameters()),
            )[k] != "tool_title"@,
        get_field(decorated(list_dir_parameters()), "properties"@) matches Some(JsonView::Object(p))
            && lookup(p, "tool_title"@) == Some(title_schema()),
{
    reveal_strlit("tool_title");
    reveal_strlit("required");
    reveal_strlit("additionalProperties");
    reveal_strlit("properties");
    reveal_strlit("type");
    reveal_with_fuel(lookup, 5);
    assert("additionalProperties"@.len() != "required"@.len());
    assert("properties"@.len() != "required"@.len());
    assert("type"@.len() != "required"@.len());
    assert("additionalProperties"@.len() != "properties"@.len());
    assert("required"@.len() != "properties"@.len());
    assert("type"@.len() != "properties"@.len());
    let e = list_dir_entries();
    assert(lookup(e, "required"@) is None);
    lemma_decorated_required(e);
    assert(lookup(e, "properties"@) matches Some(JsonView::Object(_)));
    lemma_decorated_requires_title(e);
}

/// The decorated schema of `read_file` requires `tool_title` first and only once,
/// and declares it with the title schema.
proof fn lemma_read_file_schema()
    ensures
        required_names(decorated(read_file_parameters())).len() > 0,
        required_names(decorated(read_file_parameters()))[0] == "tool_title"@,
        forall|k: int|
            0 < k < required_names(decorated(read_file_parameters())).len() ==> #[trigger] required_names(
                decorated(read_file_parameters()),
            )[k] != "tool_title"@,
        get_field(decorated(read_file_parameters()), "properties"@) matches Some(JsonView::Object(p))
            && lookup(p, "tool_title"@) == Some(title_schema()),
{
    reveal_strlit("tool_title");
    reveal_strlit("required");
    reveal_strlit("additionalProperties");
    reveal_strlit("properties");
    reveal_strlit("type");
    reveal_strlit("path");
    reveal_with_fuel(lookup, 5);
    assert("additionalProperties"@.len() != "required"@.len());
    assert("properties"@.len() != "required"@.len());
    assert("type"@.len() != "required"@.len());
    assert("additionalProperties"@.len() != "properties"@.len());
    assert("required"@.len() != "properties"@.len());
    assert("type"@.len() != "properties"@.len());
    let e = read_file_entries();
    let r = Seq::empty().push(JsonView::Str("path"@));
    assert("path"@.len() != "tool_title"@.len());
    assert(lookup(e, "required"@) == Some(JsonView::Array(r)));
    assert(!r.contains(JsonView::Str("tool_title"@)));
    lemma_decorated_required(e);
    assert(lookup(e, "properties"@) matches Some(JsonView::Object(_)));
    lemma_decorated_requires_title(e);
}

/// The decorated schema of `search_text` requires `tool_title` first and only once,
/// and declares it with the title schema.
proof fn lemma_search_text_schema()
    ensures
        required_names(decorated(search_text_parameters())).len() > 0,
        required_names(decorated(search_text_parameters()))[0] == "tool_title"@,
        forall|k: int|
            0 < k < required_names(decorated(search_text_parameters())).len() ==> #[trigger] required_names(
                decorated(search_text_parameters()),
            )[k] != "tool_title"@,
        get_field(decorated(search_text_parameters()), "properties"@) matches Some(JsonView::Object(p))
            && lookup(p, "tool_title"@) == Some(title_schema()),
{
    reveal_strlit("tool_title");
    reveal_strlit("required");
    reveal_strlit("additionalProperties");
    reveal_strlit("properties");
    reveal_strlit("type");
    reveal_strlit("pattern");
    reveal_with_fuel(lookup, 5);
    assert("additionalProperties"@.len() != "required"@.len());
    assert("properties"@.len() != "required"@.len());
    assert("type"@.len() != "required"@.len());
    assert("additionalProperties"@.len() != "properties"@.len());
    assert("required"@.len() != "properties"@.len());
    assert("type"@.len() != "properties"@.len());
    let e = search_text_entries();
    let r = Seq::empty().push(JsonView::Str("pattern"@));
    assert("pattern"@.len() != "tool_title"@.len());
    assert(lookup(e, "required"@) == Some(JsonView::Array(r)));
    assert(!r.contains(JsonView::Str("tool_title"@)));
    lemma_decorated_required(e);
    assert(lookup(e, "properties"@) matches Some(JsonView::Object(_)));
    lemma_decorated_requires_title(e);
}

/// The decorated schema of `shell_exec` requires `tool_title` first and only once,
/// and declares it with the title schema.
proof fn lemma_shell_exec_schema()
    ensures
        required_names(decorated(shell_exec_parameters())).len() > 0,
        required_names(decorated(shell_exec_parameters()))[0] == "tool_title"@,
        forall|k: int|
            0 < k < required_names(decorated(shell_exec_parameters())).len() ==> #[trigger] required_names(
                decorated(shell_exec_parameters()),
            )[k] != "tool_title"@,
        get_field(decorated(shell_exec_parameters()), "properties"@) matches Some(JsonView::Object(p))
            && lookup(p, "tool_title"@) == Some(title_schema()),
{
    reveal_strlit("tool_title");
    reveal_strlit("required");
    reveal_strlit("additionalProperties");
    reveal_strlit("properties");
    reveal_strlit("type");
    reveal_strlit("command");
    reveal_strlit("args");
    reveal_with_fuel(lookup, 5);
    assert("additionalProperties"@.len() != "required"@.len());
    assert("properties"@.len() != "required"@.len());
    assert("type"@.len() != "required"@.len());
    assert("additionalProperties"@.len() != "properties"@.len());
    assert("required"@.len() != "properties"@.len());
    assert("type"@.len() != "properties"@.len());
    let e = shell_exec_entries();
    let r = Seq::empty().push(JsonView::Str("command"@)).push(JsonView::Str("args"@));
    assert("command"@.len() != "tool_title"@.len());
    assert("args"@.len() != "tool_title"@.len());
    assert(lookup(e, "required"@) == Some(JsonView::Array(r)));
    assert(!r.contains(JsonView::Str("tool_title"@)));
    lemma_decorated_required(e);
    assert(lookup(e, "properties"@) matches Some(JsonView::Object(_)));
    lemma_decorated_requires_title(e);
}

/// The decorated schema of `smart_home_control_speaker` requires `tool_title` first and only once,
/// and declares it with the title schema.
proof fn lemma_smart_home_control_speaker_schema()
    ensures
        required_names(decorated(smart_home_control_speaker_parameters())).len() > 0,
        required_names(decorated(smart_home_control_speaker_parameters()))[0] == "tool_title"@,
        forall|k: int|
            0 < k < required_names(decorated(smart_home_control_speaker_parameters())).len() ==> #[trigger] required_names(
                decorated(smart_home_control_speaker_parameters()),
            )[k] != "tool_title"@,
        get_field(decorated(smart_home_control_speaker_parameters()), "properties"@) matches Some(JsonView::Object(p))
            && lookup(p, "tool_title"@) == Some(title_schema()),
{
    reveal_strlit("tool_title");
    reveal_strlit("required");
    reveal_strlit("additionalProperties");
    reveal_strlit("properties");
    reveal_strlit("type");
    reveal_strlit("action");
    reveal_with_fuel(lookup, 5);
    assert("additionalProperties"@.len() != "required"@.len());
    assert("properties"@.len() != "required"@.len());
    assert("type"@.len() != "required"@.len());
    assert("additionalProperties"@.len() != "properties"@.len());
    assert("required"@.len() != "properties"@.len());
    assert("type"@.len() != "properties"@.len());
    let e = smart_home_control_speaker_entries();
    let r = Seq::empty().push(JsonView::Str("action"@));
    assert("action"@.len() != "tool_title"@.len());
    assert(lookup(e, "required"@) == Some(JsonView::Array(r)));
    assert(!r.contains(JsonView::Str("tool_title"@)));
    lemma_decorated_required(e);
    assert(lookup(e, "properties"@) matches Some(JsonView::Object(_)));
    lemma_decorated_requires_title(e);
}

/// The decorated schema of `smart_home_control_light` requires `tool_title` first and only once,
/// and declares it with the title schema.
proof fn lemma_smart_home_control_light_schema()
    ensures
        required_names(decorated(smart_home_control_light_parameters())).len() > 0,
        required_names(decorated(smart_home_control_light_parameters()))[0] == "tool_title"@,
        forall|k: int|
            0 < k < required_names(decorated(smart_home_control_light_parameters())).len() ==> #[trigger] required_names(
                decorated(smart_home_control_light_parameters()),
            )[k] != "tool_title"@,
        get_field(decorated(smart_home_control_light_parameters()), "properties"@) matches Some(JsonView::Object(p))
            && lookup(p, "tool_title"@) == Some(title_schema()),
{
    reveal_strlit("tool_title");
    reveal_strlit("required");
    reveal_strlit("additionalProperties");
    reveal_strlit("properties");
    reveal_strlit("type");
    reveal_strlit("action");
    reveal_with_fuel(lookup, 5);
    assert("additionalProperties"@.len() != "required"@.len());
    assert("properties"@.len() != "required"@.len());
    assert("type"@.len() != "required"@.len());
    assert("additionalProperties"@.len() != "properties"@.len());
    assert("required"@.len() != "properties"@.len());
    assert("type"@.len() != "properties"@.len());
    let e = smart_home_control_light_entries();
    let r = Seq::empty().push(JsonView::Str("action"@));
    assert("action"@.len() != "tool_title"@.len());
    assert(lookup(e, "required"@) == Some(JsonView::Array(r)));
    assert(!r.contains(JsonView::Str("tool_title"@)));
    lemma_decorated_required(e);
    assert(lookup(e, "properties"@) matches Some(JsonView::Object(_)));
    lemma_decorated_requires_title(e);
}

/// The decorated schema of `smart_home_control_light_temperature` requires `tool_title` first and only once,
/// and declares it with the title schema.
proof fn lemma_smart_home_control_light_temperature_schema()
    ensures
        required_names(decorated(smart_home_control_light_temperature_parameters())).len() > 0,
        required_names(decorated(smart_home_control_light_temperature_parameters()))[0] == "tool_title"@,
        forall|k: int|
            0 < k < required_names(decorated(smart_home_control_light_temperature_parameters())).len() ==> #[trigger] required_names(
                decorated(smart_home_control_light_temperature_parameters()),
            )[k] != "tool_title"@,
        get_field(decorated(smart_home_control_light_temperature_parameters()), "properties"@) matches Some(JsonView::Object(p))
            && lookup(p, "tool_title"@) == Some(title_schema()),
{
    reveal_strlit("tool_title");
    reveal_strlit("required");
    reveal_strlit("additionalProperties");
    reveal_strlit("properties");
    reveal_strlit("type");
    reveal_strlit("action");
    reveal_with_fuel(lookup, 5);
    assert("additionalProperties"@.len() != "required"@.len());
    assert("properties"@.len() != "required"@.len());
    assert("type"@.len() != "required"@.len());
    assert("additionalProperties"@.len() != "properties"@.len());
    assert("required"@.len() != "properties"@.len());
    assert("type"@.len() != "properties"@.len());
    let e = smart_home_control_light_temperature_entries();
    let r = Seq::empty().push(JsonView::Str("action"@));
    assert("action"@.len() != "tool_title"@.len());
    assert(lookup(e, "required"@) == Some(JsonView::Array(r)));
    assert(!r.contains(JsonView::Str("tool_title"@)));
    lemma_decorated_required(e);
    assert(lookup(e, "properties"@) matches Some(JsonView::Object(_)));
    lemma_decorated_requires_title(e);
}

/// The decorated schema of `smart_home_control_curtain` requires `tool_title` first and only once,
/// and declares it with the title schema.
proof fn lemma_smart_home_control_curtain_schema()
    ensures
        required_names(decorated(smart_home_control_curtain_parameters())).len() > 0,
        required_names(decorated(smart_home_control_curtain_parameters()))[0] == "tool_title"@,
        forall|k: int|
            0 < k < required_names(decorated(smart_home_control_curtain_parameters())).len() ==> #[trigger] required_names(
                decorated(smart_home_control_curtain_parameters()),
            )[k] != "tool_title"@,
        get_field(decorated(smart_home_control_curtain_parameters()), "properties"@) matches Some(JsonView::Object(p))
            && lookup(p, "tool_title"@) == Some(title_schema()),
{
    reveal_strlit("tool_title");
    reveal_strlit("required");
    reveal_strlit("additionalProperties");
    reveal_strlit("properties");
    reveal_strlit("type");
    reveal_strlit("action");
    reveal_with_fuel(lookup, 5);
    assert("additionalProperties"@.len() != "required"@.len());
    assert("properties"@.len() != "required"@.len());
    assert("type"@.len() != "required"@.len());
    assert("additionalProperties"@.len() != "properties"@.len());
    assert("required"@.len() != "properties"@.len());
    assert("type"@.len() != "properties"@.len());
    let e = smart_home_control_curtain_entries();
    let r = Seq::empty().push(JsonView::Str("action"@));
    assert("action"@.len() != "tool_title"@.len());
    assert(lookup(e, "required"@) == Some(JsonView::Array(r)));
    assert(!r.contains(JsonView::Str("tool_title"@)));
    lemma_decorated_required(e);
    assert(lookup(e, "properties"@) matches Some(JsonView::Object(_)));
    lemma_decorated_requires_title(e);
}

/// The decorated schema of `smart_home_control_power` requires `tool_title` first and only once,
/// and declares it with the title schema.
proof fn lemma_smart_home_control_power_schema()
    ensures
        required_names(decorated(smart_home_control_power_parameters())).len() > 0,
        required_names(decorated(smart_home_control_power_parameters()))[0] == "tool_title"@,
        forall|k: int|
            0 < k < required_names(decorated(smart_home_control_power_parameters())).len() ==> #[trigger] required_names(
                decorated(smart_home_control_power_parameters()),
            )[k] != "tool_title"@,
        get_field(decorated(smart_home_control_power_parameters()), "properties"@) matches Some(JsonView::Object(p))
            && lookup(p, "tool_title"@) == Some(title_schema()),
{
    reveal_strlit("tool_title");
    reveal_strlit("required");
    reveal_strlit("additionalProperties");
    reveal_strlit("properties");
    reveal_strlit("type");
    reveal_strlit("device_category");
    reveal_strlit("action");
    reveal_with_fuel(lookup, 5);
    assert("additionalProperties"@.len() != "required"@.len());
    assert("properties"@.len() != "required"@.len());
    assert("type"@.len() != "required"@.len());
    assert("additionalProperties"@.len() != "properties"@.len());
    assert("required"@.len() != "properties"@.len());
    assert("type"@.len() != "properties"@.len());
    let e = smart_home_control_power_entries();
    let r = Seq::empty().push(JsonView::Str("device_category"@)).push(JsonView::Str("action"@));
    assert("device_category"@.len() != "tool_title"@.len());
    assert("action"@.len() != "tool_title"@.len());
    assert(lookup(e, "required"@) == Some(JsonView::Array(r)));
    assert(!r.contains(JsonView::Str("tool_title"@)));
    lemma_decorated_required(e);
    assert(lookup(e, "properties"@) matches Some(JsonView::Object(_)));
    lemma_decorated_requires_title(e);
}

/// The decorated schema of `smart_home_control_scene` requires `tool_title` first and only once,
/// and declares it with the title schema.
proof fn lemma_smart_home_control_scene_schema()
    ensures
        required_names(decorated(smart_home_control_scene_parameters())).len() > 0,
        required_names(decorated(smart_home_control_scene_parameters()))[0] == "tool_title"@,
        forall|k: int|
            0 < k < required_names(decorated(smart_home_control_scene_parameters())).len() ==> #[trigger] required_names(
                decorated(smart_home_control_scene_parameters()),
            )[k] != "tool_title"@,
        get_field(decorated(smart_home_control_scene_parameters()), "properties"@) matches Some(JsonView::Object(p))
            && lookup(p, "tool_title"@) == Some(title_schema()),
{
    reveal_strlit("tool_title");
    reveal_strlit("required");
    reveal_strlit("additionalProperties");
    reveal_strlit("properties");
    reveal_strlit("type");
    reveal_strlit("scene_name");
    reveal_strlit("action");
    reveal_with_fuel(lookup, 5);
    assert("additionalProperties"@.len() != "required"@.len());
    assert("properties"@.len() != "required"@.len());
    assert("type"@.len() != "required"@.len());
    assert("additionalProperties"@.len() != "properties"@.len());
    assert("required"@.len() != "properties"@.len());
    assert("type"@.len() != "properties"@.len());
    let e = smart_home_control_scene_entries();
    let r = Seq::empty().push(JsonView::Str("scene_name"@)).push(JsonView::Str("action"@));
    assert("scene_name"@[0] != "tool_title"@[0]);
    assert("action"@.len() != "tool_title"@.len());
    assert(lookup(e, "required"@) == Some(JsonView::Array(r)));
    assert(!r.contains(JsonView::Str("tool_title"@)));
    lemma_decorated_required(e);
    assert(lookup(e, "properties"@) matches Some(JsonView::Object(_)));
    lemma_decorated_requires_title(e);
}

/// The decorated schema of `digital_file_manager` requires `tool_title` first and only once,
/// and declares it with the title schema.
proof fn lemma_digital_file_manager_schema()
    ensures
        required_names(decorated(digital_file_manager_parameters())).len() > 0,
        required_names(decorated(digital_file_manager_parameters()))[0] == "tool_title"@,
        forall|k: int|
            0 < k < required_names(decorated(digital_file_manager_parameters())).len() ==> #[trigger] required_names(
                decorated(digital_file_manager_parameters()),
            )[k] != "tool_title"@,
        get_field(decorated(digital_file_manager_parameters()), "properties"@) matches Some(JsonView::Object(p))
            && lookup(p, "tool_title"@) == Some(title_schema()),
{
    reveal_strlit("tool_title");
    reveal_strlit("required");
    reveal_strlit("additionalProperties");
    reveal_strlit("properties");
    reveal_strlit("type");
    reveal_strlit("action");
    reveal_strlit("path");
    reveal_with_fuel(lookup, 5);
    assert("additionalProperties"@.len() != "required"@.len());
    assert("properties"@.len() != "required"@.len());
    assert("type"@.len() != "required"@.len());
    assert("additionalProperties"@.len() != "properties"@.len());
    assert("required"@.len() != "properties"@.len());
    assert("type"@.len() != "properties"@.len());
    let e = digital_file_manager_entries();
    let r = Seq::empty().push(JsonView::Str("action"@)).push(JsonView::Str("path"@));
    assert("action"@.len() != "tool_title"@.len());
    assert("path"@.len() != "tool_title"@.len());
    assert(lookup(e, "required"@) == Some(JsonView::Array(r)));
    assert(!r.contains(JsonView::Str("tool_title"@)));
    lemma_decorated_required(e);
    assert(lookup(e, "properties"@) matches Some(JsonView::Object(_)));
    lemma_decorated_requires_title(e);
}

/// The decorated schema of `digital_photo_library` requires `tool_title` first and only once,
/// and declares it with the title schema.
proof fn lemma_digital_photo_library_schema()
    ensures
        required_names(decorated(digital_photo_library_parameters())).len() > 0,
        required_names(decorated(digital_photo_library_parameters()))[0] == "tool_title"@,
        forall|k: int|
            0 < k < required_names(decorated(digital_photo_library_parameters())).len() ==> #[trigger] required_names(
                decorated(digital_photo_library_parameters()),
            )[k] != "tool_title"@,
        get_field(decorated(digital_photo_library_parameters()), "properties"@) matches Some(JsonView::Object(p))
            && lookup(p, "tool_title"@) == Some(title_schema()),
{
    reveal_strlit("tool_title");
    reveal_strlit("required");
    reveal_strlit("additionalProperties");
    reveal_strlit("properties");
    reveal_strlit("type");
    reveal_strlit("action");
    reveal_with_fuel(lookup, 5);
    assert("additionalProperties"@.len() != "required"@.len());
    assert("properties"@.len() != "required"@.len());
    assert("type"@.len() != "required"@.len());
    assert("additionalProperties"@.len() != "properties"@.len());
    assert("required"@.len() != "properties"@.len());
    assert("type"@.len() != "properties"@.len());
    let e = digital_photo_library_entries();
    let r = Seq::empty().push(JsonView::Str("action"@));
    assert("action"@.len() != "tool_title"@.len());
    assert(lookup(e, "required"@) == Some(JsonView::Array(r)));
    assert(!r.contains(JsonView::Str("tool_title"@)));
    lemma_decorated_required(e);
    assert(lookup(e, "properties"@) matches Some(JsonView::Object(_)));
    lemma_decorated_requires_title(e);
}

/// The decorated schema of `digital_media_control` requires `tool_title` first and only once,
/// and declares it with the title schema.
proof fn lemma_digital_media_control_schema()
    ensures
        required_names(decorated(digital_media_control_parameters())).len() > 0,
        required_names(decorated(digital_media_control_parameters()))[0] == "tool_title"@,
        forall|k: int|
            0 < k < required_names(decorated(digital_media_control_parameters())).len() ==> #[trigger] required_names(
                decorated(digital_media_control_parameters()),
            )[k] != "tool_title"@,
        get_field(decorated(digital_media_control_parameters()), "properties"@) matches Some(JsonView::Object(p))
            && lookup(p, "tool_title"@) == Some(title_schema()),
{
    reveal_strlit("tool_title");
    reveal_strlit("required");
    reveal_strlit("additionalProperties");
    reveal_strlit("properties");
    reveal_strlit("type");
    reveal_strlit("action");
    reveal_with_fuel(lookup, 5);
    assert("additionalProperties"@.len() != "required"@.len());
    assert("properties"@.len() != "required"@.len());
    assert("type"@.len() != "required"@.len());
    assert("additionalProperties"@.len() != "properties"@.len());
    assert("required"@.len() != "properties"@.len());
    assert("type"@.len() != "properties"@.len());
    let e = digital_media_control_entries();
    let r = Seq::empty().push(JsonView::Str("action"@));
    assert("action"@.len() != "tool_title"@.len());
    assert(lookup(e, "required"@) == Some(JsonView::Array(r)));
    assert(!r.contains(JsonView::Str("tool_title"@)));
    lemma_decorated_required(e);
    assert(lookup(e, "properties"@) matches Some(JsonView::Object(_)));
    lemma_decorated_requires_title(e);
}

/// The decorated schema of `digital_security_monitor` requires `tool_title` first and only once,
/// and declares it with the title schema.
proof fn lemma_digital_security_monitor_schema()
    ensures
        required_names(decorated(digital_security_monitor_parameters())).len() > 0,
        required_names(decorated(digital_security_monitor_parameters()))[0] == "tool_title"@,
        forall|k: int|
            0 < k < required_names(decorated(digital_security_monitor_parameters())).len() ==> #[trigger] required_names(
                decorated(digital_security_monitor_parameters()),
            )[k] != "tool_title"@,
        get_field(decorated(digital_security_monitor_parameters()), "properties"@) matches Some(JsonView::Object(p))
            && lookup(p, "tool_title"@) == Some(title_schema()),
{
    reveal_strlit("tool_title");
    reveal_strlit("required");
    reveal_strlit("additionalProperties");
    reveal_strlit("properties");
    reveal_strlit("type");
    reveal_strlit("action");
    reveal_with_fuel(lookup, 5);
    assert("additionalProperties"@.len() != "required"@.len());
    assert("properties"@.len() != "required"@.len());
    assert("type"@.len() != "required"@.len());
    assert("additionalProperties"@.len() != "properties"@.len());
    assert("required"@.len() != "properties"@.len());
    assert("type"@.len() != "properties"@.len());
    let e = digital_security_monitor_entries();
    let r = Seq::empty().push(JsonView::Str("action"@));
    assert("action"@.len() != "tool_title"@.len());
    assert(lookup(e, "required"@) == Some(JsonView::Array(r)));
    assert(!r.contains(JsonView::Str("tool_title"@)));
    lemma_decorated_required(e);
    assert(lookup(e, "properties"@) matches Some(JsonView::Object(_)));
    lemma_decorated_requires_title(e);
}

/// The decorated schema of `digital_document_workspace` requires `tool_title` first and only once,
/// and declares it with the title schema.
proof fn lemma_digital_document_workspace_schema()
    ensures
        required_names(decorated(digital_document_workspace_parameters())).len() > 0,
        required_names(decorated(digital_document_workspace_parameters()))[0] == "tool_title"@,
        forall|k: int|
            0 < k < required_names(decorated(digital_document_workspace_parameters())).len() ==> #[trigger] required_names(
                decorated(digital_document_workspace_parameters()),
            )[k] != "tool_title"@,
        get_field(decorated(digital_document_workspace_parameters()), "properties"@) matches Some(JsonView::Object(p))
            && lookup(p, "tool_title"@) == Some(title_schema()),
{
    reveal_strlit("tool_title");
    reveal_strlit("required");
    reveal_strlit("additionalProperties");
    reveal_strlit("properties");
    reveal_strlit("type");
    reveal_strlit("document_type");
    reveal_strlit("action");
    reveal_with_fuel(lookup, 5);
    assert("additionalProperties"@.len() != "required"@.len());
    assert("properties"@.len() != "required"@.len());
    assert("type"@.len() != "required"@.len());
    assert("additionalProperties"@.len() != "properties"@.len());
    assert("required"@.len() != "properties"@.len());
    assert("type"@.len() != "properties"@.len());
    let e = digital_document_workspace_entries();
    let r = Seq::empty().push(JsonView::Str("document_type"@)).push(JsonView::Str("action"@));
    assert("document_type"@.len() != "tool_title"@.len());
    assert("action"@.len() != "tool_title"@.len());
    assert(lookup(e, "required"@) == Some(JsonView::Array(r)));
    assert(!r.contains(JsonView::Str("tool_title"@)));
    lemma_decorated_required(e);
    assert(lookup(e, "properties"@) matches Some(JsonView::Object(_)));
    lemma_decorated_requires_title(e);
}

/// The decorated schema of `digital_text_assistant` requires `tool_title` first and only once,
/// and declares it with the title schema.
proof fn lemma_digital_text_assistant_schema()
    ensures
        required_names(decorated(digital_text_assistant_parameters())).len() > 0,
        required_names(decorated(digital_text_assistant_parameters()))[0] == "tool_title"@,
        forall|k: int|
            0 < k < required_names(decorated(digital_text_assistant_parameters())).len() ==> #[trigger] required_names(
                decorated(digital_text_assistant_parameters()),
            )[k] != "tool_title"@,
        get_field(decorated(digital_text_assistant_parameters()), "properties"@) matches Some(JsonView::Object(p))
            && lookup(p, "tool_title"@) == Some(title_schema()),
{
    reveal_strlit("tool_title");
    reveal_strlit("required");
    reveal_strlit("additionalProperties");
    reveal_strlit("properties");
    reveal_strlit("type");
    reveal_strlit("action");
    reveal_strlit("text");
    reveal_with_fuel(lookup, 5);
    assert("additionalProperties"@.len() != "required"@.len());
    assert("properties"@.len() != "required"@.len());
    assert("type"@.len() != "required"@.len());
    assert("additionalProperties"@.len() != "properties"@.len());
    assert("required"@.len() != "properties"@.len());
    assert("type"@.len() != "properties"@.len());
    let e = digital_text_assistant_entries();
    let r = Seq::empty().push(JsonView::Str("action"@)).push(JsonView::Str("text"@));
    assert("action"@.len() != "tool_title"@.len());
    assert("text"@.len() != "tool_title"@.len());
    assert(lookup(e, "required"@) == Some(JsonView::Array(r)));
    assert(!r.contains(JsonView::Str("tool_title"@)));
    lemma_decorated_required(e);
    assert(lookup(e, "properties"@) matches Some(JsonView::Object(_)));
    lemma_decorated_requires_title(e);
}

/// The decorated schema of `digital_note_knowledge` requires `tool_title` first and only once,
/// and declares it with the title schema.
proof fn lemma_digital_note_knowledge_schema()
    ensures
        required_names(decorated(digital_note_knowledge_parameters())).len() > 0,
        required_names(decorated(digital_note_knowledge_parameters()))[0] == "tool_title"@,
        forall|k: int|
            0 < k < required_names(decorated(digital_note_knowledge_parameters())).len() ==> #[trigger] required_names(
                decorated(digital_note_knowledge_parameters()),
            )[k] != "tool_title"@,
        get_field(decorated(digital_note_knowledge_parameters()), "properties"@) matches Some(JsonView::Object(p))
            && lookup(p, "tool_title"@) == Some(title_schema()),
{
    reveal_strlit("tool_title");
    reveal_strlit("required");
    reveal_strlit("additionalProperties");
    reveal_strlit("properties");
    reveal_strlit("type");
    reveal_strlit("action");
    reveal_with_fuel(lookup, 5);
    assert("additionalProperties"@.len() != "required"@.len());
    assert("properties"@.len() != "required"@.len());
    assert("type"@.len() != "required"@.len());
    assert("additionalProperties"@.len() != "properties"@.len());
    assert("required"@.len() != "properties"@.len());
    assert("type"@.len() != "properties"@.len());
    let e = digital_note_knowledge_entries();
    let r = Seq::empty().push(JsonView::Str("action"@));
    assert("action"@.len() != "tool_title"@.len());
    assert(lookup(e, "required"@) == Some(JsonView::Array(r)));
    assert(!r.contains(JsonView::Str("tool_title"@)));
    lemma_decorated_required(e);
    assert(lookup(e, "properties"@) matches Some(JsonView::Object(_)));
    lemma_decorated_requires_title(e);
}

} // verus!
