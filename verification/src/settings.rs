//! The user's choices on the main screen: the Whisper model, the spoken
//! language, and the file or folder to transcribe.
use vstd::prelude::*;
use vstd::string::StringExecFns;

use crate::text::str_eq;

verus! {

/// The display name of a language code, "Auto" for an unknown code.
pub open spec fn lang_label_spec(code: Seq<char>) -> Seq<char> {
    if code == "en"@ {
        "English"@
    } else if code == "tr"@ {
        "Turkish"@
    } else if code == "de"@ {
        "German"@
    } else if code == "fr"@ {
        "French"@
    } else if code == "es"@ {
        "Spanish"@
    } else if code == "ar"@ {
        "Arabic"@
    } else if code == "ru"@ {
        "Russian"@
    } else if code == "zh"@ {
        "Chinese"@
    } else if code == "ja"@ {
        "Japanese"@
    } else if code == "ko"@ {
        "Korean"@
    } else {
        "Auto"@
    }
}

/// The languages offered in the language selector, as (code, label) pairs:
/// English, Turkish, German, French, Spanish, Arabic and Russian.
pub open spec fn language_list() -> Seq<(Seq<char>, Seq<char>)> {
    seq![
        ("en"@, "English"@),
        ("tr"@, "Turkish"@),
        ("de"@, "German"@),
        ("fr"@, "French"@),
        ("es"@, "Spanish"@),
        ("ar"@, "Arabic"@),
        ("ru"@, "Russian"@),
    ]
}

/// The models offered in the model selector, as (name, label) pairs.
pub open spec fn model_list() -> Seq<(Seq<char>, Seq<char>)> {
    seq![
        ("tiny"@, "tiny   — Fast  (~75 MB)"@),
        ("base"@, "base   — Balanced (~142 MB)"@),
        ("small"@, "small  — Accurate (~466 MB)"@),
        ("medium"@, "medium — Best  (~1.5 GB)"@),
    ]
}

/// Name of the file that holds the Whisper model `model`.
pub open spec fn model_file_name_spec(model: Seq<char>) -> Seq<char> {
    "ggml-"@ + model + ".bin"@
}

/// The views of a list of pairs of string slices.
pub open spec fn pair_views(v: Seq<(&'static str, &'static str)>) -> Seq<(Seq<char>, Seq<char>)> {
    v.map_values(|p: (&'static str, &'static str)| (p.0@, p.1@))
}

/// The choices of the main screen.
pub struct Settings {
    pub selected_file: String,
    pub selected_folder: String,
    pub model: String,
    pub language: String,
}

impl Settings {
    /// The choices at program start: nothing selected, the tiny model, English.
    pub fn new() -> (r: Settings)
        ensures
            r.selected_file@ == Seq::<char>::empty(),
            r.selected_folder@ == Seq::<char>::empty(),
            r.model@ == "tiny"@,
            r.language@ == "en"@,
    {
        Settings {
            selected_file: String::new(),
            selected_folder: String::new(),
            model: String::from_str("tiny"),
            language: String::from_str("en"),
        }
    }

    /// Name of the file that holds the chosen model.
    pub fn model_file_name(&self) -> (r: String)
        ensures
            r@ == model_file_name_spec(self.model@),
    {
        model_file_name(self.model.as_str())
    }
}

/// The display name of a language code, "Auto" for an unknown code.
pub fn lang_label(code: &str) -> (r: &'static str)
    ensures
        r@ == lang_label_spec(code@),
{
    if str_eq(code, "en") {
        "English"
    } else if str_eq(code, "tr") {
        "Turkish"
    } else if str_eq(code, "de") {
        "German"
    } else if str_eq(code, "fr") {
        "French"
    } else if str_eq(code, "es") {
        "Spanish"
    } else if str_eq(code, "ar") {
        "Arabic"
    } else if str_eq(code, "ru") {
        "Russian"
    } else if str_eq(code, "zh") {
        "Chinese"
    } else if str_eq(code, "ja") {
        "Japanese"
    } else if str_eq(code, "ko") {
        "Korean"
    } else {
        "Auto"
    }
}

/// The languages offered in the language selector, as (code, label) pairs:
/// English, Turkish, German, French, Spanish, Arabic and Russian.
pub fn language_options() -> (r: Vec<(&'static str, &'static str)>)
    ensures
        pair_views(r@) == language_list(),
{
    let r = vec![
        ("en", "English"),
        ("tr", "Turkish"),
        ("de", "German"),
        ("fr", "French"),
        ("es", "Spanish"),
        ("ar", "Arabic"),
        ("ru", "Russian"),
    ];
    assert(pair_views(r@) =~= language_list());
    r
}

/// The models offered in the model selector, as (name, label) pairs.
pub fn model_options() -> (r: Vec<(&'static str, &'static str)>)
    ensures
        pair_views(r@) == model_list(),
{
    let r = vec![
        ("tiny", "tiny   — Fast  (~75 MB)"),
        ("base", "base   — Balanced (~142 MB)"),
        ("small", "small  — Accurate (~466 MB)"),
        ("medium", "medium — Best  (~1.5 GB)"),
    ];
    assert(pair_views(r@) =~= model_list());
    r
}

/// Name of the file that holds the Whisper model `model`.
pub fn model_file_name(model: &str) -> (r: String)
    ensures
        r@ == model_file_name_spec(model@),
{
    let mut s = String::from_str("ggml-");
    s.append(model);
    s.append(".bin");
    s
}

/// Whether a click on a generate button starts work: the button is enabled
/// only while nothing is being processed and every component is present,
/// and the click does nothing while no file or folder is chosen.
pub fn start_allowed(processing: bool, ready: bool, selection: &str) -> (r: bool)
    ensures
        r == (!processing && ready && selection@.len() > 0),
{
    !processing && ready && !selection.is_empty()
}

/// Every language offered in the selector is shown under the label that
/// `lang_label` gives its code; none of them falls back to "Auto".
pub proof fn law_offered_languages_have_labels(i: int)
    requires
        0 <= i < language_list().len(),
    ensures
        lang_label_spec(language_list()[i].0) == language_list()[i].1,
        lang_label_spec(language_list()[i].0) != "Auto"@,
{
    reveal_strlit("en");
    reveal_strlit("tr");
    reveal_strlit("de");
    reveal_strlit("fr");
    reveal_strlit("es");
    reveal_strlit("ar");
    reveal_strlit("ru");
    reveal_strlit("zh");
    reveal_strlit("ja");
    reveal_strlit("ko");
    reveal_strlit("English");
    reveal_strlit("Turkish");
    reveal_strlit("German");
    reveal_strlit("French");
    reveal_strlit("Spanish");
    reveal_strlit("Arabic");
    reveal_strlit("Russian");
    reveal_strlit("Chinese");
    reveal_strlit("Japanese");
    reveal_strlit("Korean");
    reveal_strlit("Auto");
    let codes = seq!["en"@, "tr"@, "de"@, "fr"@, "es"@, "ar"@, "ru"@];
    assert forall|j: int, k: int| 0 <= j < k < 7 implies #[trigger] codes[j] != #[trigger] codes[k] by {
        assert(codes[j].len() == 2 && codes[k].len() == 2);
        if codes[j][0] == codes[k][0] {
            assert(codes[j][1] != codes[k][1]);
        }
    }
    assert("English"@ != "Auto"@ && "Turkish"@ != "Auto"@ && "German"@ != "Auto"@ && "French"@ != "Auto"@ && "Spanish"@ != "Auto"@ && "Arabic"@ != "Auto"@ && "Russian"@ != "Auto"@ && "Chinese"@ != "Auto"@ && "Japanese"@ != "Auto"@ && "Korean"@ != "Auto"@) by {
        assert("English"@.len() != "Auto"@.len());
        assert("Turkish"@.len() != "Auto"@.len());
        assert("German"@.len() != "Auto"@.len());
        assert("French"@.len() != "Auto"@.len());
        assert("Spanish"@.len() != "Auto"@.len());
        assert("Arabic"@.len() != "Auto"@.len());
        assert("Russian"@.len() != "Auto"@.len());
        assert("Chinese"@.len() != "Auto"@.len());
        assert("Japanese"@.len() != "Auto"@.len());
        assert("Korean"@.len() != "Auto"@.len());
    }
    assert(language_list()[i].0 == codes[i]);
}

/// The model chosen at program start is the one that the first-time setup
/// installs.
pub proof fn law_default_model_is_installed()
    ensures
        model_file_name_spec("tiny"@) == crate::setup::file_name_of(crate::setup::Component::Model),
{
    reveal_strlit("ggml-");
    reveal_strlit("tiny");
    reveal_strlit(".bin");
    reveal_strlit("ggml-tiny.bin");
    assert(model_file_name_spec("tiny"@) =~= "ggml-tiny.bin"@);
}

/// The model selector offers tiny, base, small and medium, in that order,
/// and each entry's label starts with the name of the model it selects,
/// followed by a space.
pub proof fn law_model_labels_name_their_model(i: int)
    requires
        0 <= i < model_list().len(),
    ensures
        model_list().len() == 4,
        model_list()[0].0 == "tiny"@,
        model_list()[1].0 == "base"@,
        model_list()[2].0 == "small"@,
        model_list()[3].0 == "medium"@,
        model_list()[i].0.len() < model_list()[i].1.len(),
        model_list()[i].1.take(model_list()[i].0.len() as int) == model_list()[i].0,
        model_list()[i].1[model_list()[i].0.len() as int] == ' ',
{
    reveal_strlit("tiny");
    reveal_strlit("base");
    reveal_strlit("small");
    reveal_strlit("medium");
    reveal_strlit("tiny   — Fast  (~75 MB)");
    reveal_strlit("base   — Balanced (~142 MB)");
    reveal_strlit("small  — Accurate (~466 MB)");
    reveal_strlit("medium — Best  (~1.5 GB)");
    let name = model_list()[i].0;
    let label = model_list()[i].1;
    assert(label.take(name.len() as int) =~= name);
}

} // verus!
