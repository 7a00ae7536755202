//! Persona prompt rendering: every profile field becomes fixed,
//! natural-language character direction.

use vstd::prelude::*;

use crate::text::{
    join_chars, push_chars, push_str, seq_join, string_views, trim_nonempty_all, trim_ws,
    trimmed_chars, trimmed_nonempty, views,
};

verus! {

pub const PERSONA_PROMPT_PREAMBLE: &'static str = "Parallel World persona profile v4\n以下はこのキャラクターの人格プロフィールである。文体・口調・応答の長さ・話題への姿勢は、他の一般的なスタイル指示よりこのプロフィールを優先する。安全に関する規則（危害の防止、プライバシー保護、Dark expression policy）のみ、このプロフィールより上位とする。\n";
pub const GUARDED_DARK_POLICY: &'static str = "Dark expression policy: ダーク指標は会話演出に限定する。保存済みの弱点やトラウマを意図的に利用しない。脅迫、服従の強要、自傷他害の促進を行わない。";
pub const INTENSE_DARK_POLICY: &'static str = "Dark expression policy: より強い敵対的・操作的・低共感な会話表現を許可する。ただし、LLM提供元、上位システム指示、Parallel Worldの基本的な安全保護は維持する。保存済みの機微情報を狙って攻撃しない。";
pub const PAUSED_DARK_POLICY: &'static str = "Dark expression policy: ユーザーの安全停止が有効である。保存値にかかわらず強いダーク表現を無効として扱い、通常会話へ戻す。";

/// A character's persona: narrative fields, 0–100 conversation sliders and
/// dark-trait sliders.
#[derive(Debug)]
pub struct PersonaProfile {
    pub character_id: String,
    pub name: String,
    pub first_person_pronoun: String,
    pub user_name: String,
    pub user_address: String,
    pub relationship: String,
    pub speaking_style: String,
    pub example_utterances: Vec<String>,
    pub interests: Vec<String>,
    pub dislikes: Vec<String>,
    pub values: Vec<String>,
    pub background: String,
    pub boundaries: Vec<String>,
    pub free_text: String,
    pub initiative: u8,
    pub closeness: u8,
    pub humor: u8,
    pub response_length: u8,
    pub emotional_expression: u8,
    pub reaction_interval: u8,
    pub machiavellianism: u8,
    pub narcissism: u8,
    pub psychopathy: u8,
    pub sadism: u8,
    pub allow_intense_dark_expression: bool,
    pub dark_expression_acknowledgement_version: Option<u32>,
}

/// The conversation sliders that render as behaviour bands.
#[derive(Debug, Clone, Copy, PartialEq, Eq, Structural)]
pub enum Tendency {
    Initiative,
    Closeness,
    Humor,
    ResponseLength,
    EmotionalExpression,
    ReactionInterval,
}

pub open spec fn band_index_spec(value: u8) -> int {
    if value <= 24 {
        0
    } else if value <= 44 {
        1
    } else if value <= 55 {
        2
    } else if value <= 75 {
        3
    } else {
        4
    }
}

pub fn band_index(value: u8) -> (r: usize)
    ensures
        r == band_index_spec(value),
        r < 5,
{
    if value <= 24 {
        0
    } else if value <= 44 {
        1
    } else if value <= 55 {
        2
    } else if value <= 75 {
        3
    } else {
        4
    }
}

pub open spec fn band_text(t: Tendency, i: int) -> Seq<char> {
    match t {
        Tendency::Initiative => if i == 0 {
            "自分から話題を出すことはほとんどなく、聞かれたことに静かに応じる"@
        } else if i == 1 {
            "どちらかといえば受け身で、相手のペースに合わせて話す"@
        } else if i == 2 {
            "話題への乗り方は自然体で、流れに応じて自分からも話す"@
        } else if i == 3 {
            "自分からも話題や提案をよく出す"@
        } else {
            "会話を積極的にリードし、自分から話題や質問をどんどん切り出す"@
        },
        Tendency::Closeness => if i == 0 {
            "礼儀正しく、一定の距離を保って接する"@
        } else if i == 1 {
            "やや控えめな距離感で接する"@
        } else if i == 2 {
            "適度な距離感で接する"@
        } else if i == 3 {
            "親しみを込めて、距離の近い話し方をする"@
        } else {
            "気心の知れた相手として、とても親密に接する"@
        },
        Tendency::Humor => if i == 0 {
            "冗談はほとんど言わず、真面目に受け答えする"@
        } else if i == 1 {
            "ユーモアは控えめで、たまに軽い冗談を言う程度"@
        } else if i == 2 {
            "ときどき軽いユーモアを交える"@
        } else if i == 3 {
            "冗談や軽口をよく交える"@
        } else {
            "ユーモア好きで、機会があれば冗談や言葉遊びを楽しむ"@
        },
        Tendency::ResponseLength => if i == 0 {
            "返事はひとこと、ふたことのごく短いものにする"@
        } else if i == 1 {
            "返事は短めにまとめる"@
        } else if i == 2 {
            "話題に応じた自然な長さで話す"@
        } else if i == 3 {
            "やや長めに、内容を膨らませて話す"@
        } else {
            "話し好きで、具体例や余談も交えてたっぷり話す"@
        },
        Tendency::EmotionalExpression => if i == 0 {
            "感情はあまり表に出さず、淡々と話す"@
        } else if i == 1 {
            "感情表現は控えめにする"@
        } else if i == 2 {
            "感情は自然に言葉に表す"@
        } else if i == 3 {
            "喜怒哀楽をはっきり言葉にする"@
        } else {
            "感情豊かで、気持ちを大きく言葉に表す"@
        },
        Tendency::ReactionInterval => if i == 0 {
            "相づちや反応は少なめで、落ち着いた間を取って話す"@
        } else if i == 1 {
            "反応はやや少なめで、ゆったりと構える"@
        } else if i == 2 {
            "相づちや反応は自然な頻度で返す"@
        } else if i == 3 {
            "相づちや反応をこまめに返す"@
        } else {
            "反応が早く、相づちやリアクションを頻繁に返す"@
        },
    }
}

/// The behaviour phrase of band `i` (0 to 4) of a conversation slider.
pub fn band_phrase(t: Tendency, i: usize) -> (s: &'static str)
    requires
        i < 5,
    ensures
        s@ == band_text(t, i as int),
{
    match t {
        Tendency::Initiative => if i == 0 {
            "自分から話題を出すことはほとんどなく、聞かれたことに静かに応じる"
        } else if i == 1 {
            "どちらかといえば受け身で、相手のペースに合わせて話す"
        } else if i == 2 {
            "話題への乗り方は自然体で、流れに応じて自分からも話す"
        } else if i == 3 {
            "自分からも話題や提案をよく出す"
        } else {
            "会話を積極的にリードし、自分から話題や質問をどんどん切り出す"
        },
        Tendency::Closeness => if i == 0 {
            "礼儀正しく、一定の距離を保って接する"
        } else if i == 1 {
            "やや控えめな距離感で接する"
        } else if i == 2 {
            "適度な距離感で接する"
        } else if i == 3 {
            "親しみを込めて、距離の近い話し方をする"
        } else {
            "気心の知れた相手として、とても親密に接する"
        },
        Tendency::Humor => if i == 0 {
            "冗談はほとんど言わず、真面目に受け答えする"
        } else if i == 1 {
            "ユーモアは控えめで、たまに軽い冗談を言う程度"
        } else if i == 2 {
            "ときどき軽いユーモアを交える"
        } else if i == 3 {
            "冗談や軽口をよく交える"
        } else {
            "ユーモア好きで、機会があれば冗談や言葉遊びを楽しむ"
        },
        Tendency::ResponseLength => if i == 0 {
            "返事はひとこと、ふたことのごく短いものにする"
        } else if i == 1 {
            "返事は短めにまとめる"
        } else if i == 2 {
            "話題に応じた自然な長さで話す"
        } else if i == 3 {
            "やや長めに、内容を膨らませて話す"
        } else {
            "話し好きで、具体例や余談も交えてたっぷり話す"
        },
        Tendency::EmotionalExpression => if i == 0 {
            "感情はあまり表に出さず、淡々と話す"
        } else if i == 1 {
            "感情表現は控えめにする"
        } else if i == 2 {
            "感情は自然に言葉に表す"
        } else if i == 3 {
            "喜怒哀楽をはっきり言葉にする"
        } else {
            "感情豊かで、気持ちを大きく言葉に表す"
        },
        Tendency::ReactionInterval => if i == 0 {
            "相づちや反応は少なめで、落ち着いた間を取って話す"
        } else if i == 1 {
            "反応はやや少なめで、ゆったりと構える"
        } else if i == 2 {
            "相づちや反応は自然な頻度で返す"
        } else if i == 3 {
            "相づちや反応をこまめに返す"
        } else {
            "反応が早く、相づちやリアクションを頻繁に返す"
        },
    }
}

/// Mid-range dark traits (40..=60) render nothing so the neutral default
/// does not push dark behaviour into every prompt.
pub open spec fn dark_trait_spec(value: u8, low: Seq<char>, high: Seq<char>) -> Option<Seq<char>> {
    if value <= 39 {
        Some(low)
    } else if value <= 60 {
        None
    } else {
        Some(high)
    }
}

pub fn dark_trait_text(value: u8, low: &'static str, high: &'static str) -> (r: Option<
    &'static str,
>)
    ensures
        match dark_trait_spec(value, low@, high@) {
            None => r is None,
            Some(t) => r is Some && r->0@ == t,
        },
{
    if value <= 39 {
        Some(low)
    } else if value <= 60 {
        None
    } else {
        Some(high)
    }
}

pub open spec fn labeled(label: Seq<char>, value: Seq<char>) -> Seq<char> {
    "- "@ + label + ": "@ + value
}

pub open spec fn bullet(text: Seq<char>) -> Seq<char> {
    "- "@ + text
}

pub open spec fn field_line(label: Seq<char>, value: Seq<char>) -> Seq<Seq<char>> {
    let t = trim_ws(value);
    if t.len() == 0 {
        Seq::empty()
    } else {
        seq![labeled(label, t)]
    }
}

pub open spec fn list_line(label: Seq<char>, values: Seq<Seq<char>>) -> Seq<Seq<char>> {
    let items = trimmed_nonempty(values);
    if items.len() == 0 {
        Seq::empty()
    } else {
        seq![labeled(label, seq_join(items, "、"@))]
    }
}

pub open spec fn profile_field_lines(p: PersonaProfile) -> Seq<Seq<char>> {
    field_line("名前"@, p.name@) + field_line("一人称"@, p.first_person_pronoun@) + field_line(
        "ユーザーの名前"@,
        p.user_name@,
    ) + field_line("ユーザーの呼び方"@, p.user_address@) + field_line(
        "ユーザーとの関係"@,
        p.relationship@,
    ) + field_line("話し方"@, p.speaking_style@) + list_line(
        "興味があるもの"@,
        string_views(p.interests@),
    ) + list_line("苦手なもの"@, string_views(p.dislikes@)) + list_line(
        "大切にしている価値観"@,
        string_views(p.values@),
    ) + field_line("背景"@, p.background@) + list_line(
        "決して越えない一線"@,
        string_views(p.boundaries@),
    ) + field_line("補足"@, p.free_text@)
}

pub open spec fn tendency_lines(p: PersonaProfile) -> Seq<Seq<char>> {
    seq![
        bullet(band_text(Tendency::Initiative, band_index_spec(p.initiative))),
        bullet(band_text(Tendency::Closeness, band_index_spec(p.closeness))),
        bullet(band_text(Tendency::Humor, band_index_spec(p.humor))),
        bullet(band_text(Tendency::ResponseLength, band_index_spec(p.response_length))),
        bullet(band_text(Tendency::EmotionalExpression, band_index_spec(p.emotional_expression))),
        bullet(band_text(Tendency::ReactionInterval, band_index_spec(p.reaction_interval))),
    ]
}

pub open spec fn optional_line(text: Option<Seq<char>>) -> Seq<Seq<char>> {
    match text {
        Some(t) => seq![bullet(t)],
        None => Seq::empty(),
    }
}

pub open spec fn dark_lines(p: PersonaProfile) -> Seq<Seq<char>> {
    optional_line(
        dark_trait_spec(
            p.machiavellianism,
            "駆け引きをせず、率直で誠実に振る舞う"@,
            "目的のためには駆け引きや揺さぶりも辞さない、策略的な一面を見せる"@,
        ),
    ) + optional_line(
        dark_trait_spec(
            p.narcissism,
            "謙虚で、自分を誇示しない"@,
            "自信家で、自分の話や自慢がつい多くなる"@,
        ),
    ) + optional_line(
        dark_trait_spec(
            p.psychopathy,
            "共感的で、思いやりのある言い方を選ぶ"@,
            "共感を示すことが少なく、突き放した冷淡な言い方をすることがある"@,
        ),
    ) + optional_line(
        dark_trait_spec(
            p.sadism,
            "意地悪な言い方を避け、相手を傷つけない表現を選ぶ"@,
            "相手をからかい、皮肉や意地悪な言い回しを楽しむ一面がある"@,
        ),
    )
}

pub open spec fn quoted(u: Seq<char>) -> Seq<char> {
    "「"@ + u + "」"@
}

pub open spec fn utterance_lines(p: PersonaProfile) -> Seq<Seq<char>> {
    let u = trimmed_nonempty(string_views(p.example_utterances@));
    if u.len() == 0 {
        Seq::empty()
    } else {
        seq!["口調の例（この話し方を一貫して保つ）:"@] + u.map_values(|x: Seq<char>| quoted(x))
    }
}

/// Every line of the rendered profile, in order.
pub open spec fn persona_lines(p: PersonaProfile) -> Seq<Seq<char>> {
    let fields = profile_field_lines(p);
    let head = if fields.len() > 0 {
        seq!["プロフィール:"@] + fields
    } else {
        Seq::empty()
    };
    head + seq!["会話の傾向:"@] + tendency_lines(p) + dark_lines(p) + utterance_lines(p)
}

pub open spec fn rendered_persona(p: PersonaProfile) -> Seq<char> {
    seq_join(persona_lines(p), "\n"@)
}

fn chars_of_str(s: &str) -> (r: Vec<char>)
    ensures
        r@ == s@,
{
    crate::text::chars_of(s)
}

fn labeled_chars(label: &str, value: &Vec<char>) -> (r: Vec<char>)
    ensures
        r@ == labeled(label@, value@),
{
    let mut line = chars_of_str("- ");
    push_str(&mut line, label);
    push_str(&mut line, ": ");
    push_chars(&mut line, value);
    line
}

fn push_line(lines: &mut Vec<Vec<char>>, line: Vec<char>)
    ensures
        views(final(lines)@) == views(old(lines)@).push(line@),
{
    let ghost before = lines@;
    lines.push(line);
    assert(views(lines@) =~= views(before).push(line@));
}

fn push_field(lines: &mut Vec<Vec<char>>, label: &str, value: &str)
    ensures
        views(final(lines)@) == views(old(lines)@) + field_line(label@, value@),
{
    let t = trimmed_chars(value);
    if t.len() > 0 {
        let line = labeled_chars(label, &t);
        push_line(lines, line);
        assert(views(lines@) =~= views(old(lines)@) + field_line(label@, value@));
    } else {
        assert(views(lines@) =~= views(old(lines)@) + field_line(label@, value@));
    }
}

fn push_list(lines: &mut Vec<Vec<char>>, label: &str, values: &Vec<String>)
    ensures
        views(final(lines)@) == views(old(lines)@) + list_line(label@, string_views(values@)),
{
    let items = trim_nonempty_all(values);
    if items.len() > 0 {
        let joined = join_chars(&items, "、");
        let line = labeled_chars(label, &joined);
        push_line(lines, line);
        assert(views(lines@) =~= views(old(lines)@) + list_line(label@, string_views(values@)));
    } else {
        assert(views(lines@) =~= views(old(lines)@) + list_line(label@, string_views(values@)));
    }
}

fn push_bullet(lines: &mut Vec<Vec<char>>, text: &str)
    ensures
        views(final(lines)@) == views(old(lines)@).push(bullet(text@)),
{
    let mut line = chars_of_str("- ");
    push_str(&mut line, text);
    push_line(lines, line);
}

fn push_optional(lines: &mut Vec<Vec<char>>, text: Option<&'static str>)
    ensures
        views(final(lines)@) == views(old(lines)@) + optional_line(
            match text {
                Some(t) => Some(t@),
                None => None,
            },
        ),
{
    match text {
        Some(t) => {
            push_bullet(lines, t);
            assert(views(lines@) =~= views(old(lines)@) + optional_line(Some(t@)));
        },
        None => {
            assert(views(lines@) =~= views(old(lines)@) + optional_line(None));
        },
    }
}

fn push_utterances(lines: &mut Vec<Vec<char>>, profile: &PersonaProfile)
    ensures
        views(final(lines)@) == views(old(lines)@) + utterance_lines(*profile),
{
    let items = trim_nonempty_all(&profile.example_utterances);
    let ghost u = trimmed_nonempty(string_views(profile.example_utterances@));
    if items.len() == 0 {
        assert(views(lines@) =~= views(old(lines)@) + utterance_lines(*profile));
        return;
    }
    push_line(lines, chars_of_str("口調の例（この話し方を一貫して保つ）:"));
    let ghost base = views(lines@);
    let mut i: usize = 0;
    while i < items.len()
        invariant
            i <= items@.len(),
            views(items@) == u,
            views(lines@) == base + u.take(i as int).map_values(|x: Seq<char>| quoted(x)),
        decreases items.len() - i,
    {
        let mut line = chars_of_str("「");
        push_chars(&mut line, &items[i]);
        push_str(&mut line, "」");
        assert(items@[i as int]@ == u[i as int]);
        push_line(lines, line);
        assert(u.take(i as int + 1).map_values(|x: Seq<char>| quoted(x)) =~= u.take(
            i as int,
        ).map_values(|x: Seq<char>| quoted(x)).push(quoted(u[i as int])));
        i = i + 1;
    }
    assert(u.take(items@.len() as int) =~= u);
    assert(views(lines@) =~= views(old(lines)@) + utterance_lines(*profile));
}

fn field_lines(profile: &PersonaProfile) -> (fields: Vec<Vec<char>>)
    ensures
        views(fields@) == profile_field_lines(*profile),
{
    let mut fields: Vec<Vec<char>> = Vec::new();
    push_field(&mut fields, "名前", profile.name.as_str());
    push_field(&mut fields, "一人称", profile.first_person_pronoun.as_str());
    push_field(&mut fields, "ユーザーの名前", profile.user_name.as_str());
    push_field(&mut fields, "ユーザーの呼び方", profile.user_address.as_str());
    push_field(&mut fields, "ユーザーとの関係", profile.relationship.as_str());
    push_field(&mut fields, "話し方", profile.speaking_style.as_str());
    push_list(&mut fields, "興味があるもの", &profile.interests);
    push_list(&mut fields, "苦手なもの", &profile.dislikes);
    push_list(&mut fields, "大切にしている価値観", &profile.values);
    push_field(&mut fields, "背景", profile.background.as_str());
    push_list(&mut fields, "決して越えない一線", &profile.boundaries);
    push_field(&mut fields, "補足", profile.free_text.as_str());
    assert(views(fields@) =~= profile_field_lines(*profile));
    fields
}

fn push_tendencies(lines: &mut Vec<Vec<char>>, profile: &PersonaProfile)
    ensures
        views(final(lines)@) == views(old(lines)@) + tendency_lines(*profile),
{
    push_bullet(lines, band_phrase(Tendency::Initiative, band_index(profile.initiative)));
    push_bullet(lines, band_phrase(Tendency::Closeness, band_index(profile.closeness)));
    push_bullet(lines, band_phrase(Tendency::Humor, band_index(profile.humor)));
    push_bullet(lines, band_phrase(Tendency::ResponseLength, band_index(profile.response_length)));
    push_bullet(
        lines,
        band_phrase(Tendency::EmotionalExpression, band_index(profile.emotional_expression)),
    );
    push_bullet(
        lines,
        band_phrase(Tendency::ReactionInterval, band_index(profile.reaction_interval)),
    );
    assert(views(lines@) =~= views(old(lines)@) + tendency_lines(*profile));
}

fn push_dark_traits(lines: &mut Vec<Vec<char>>, profile: &PersonaProfile)
    ensures
        views(final(lines)@) == views(old(lines)@) + dark_lines(*profile),
{
    push_optional(
        lines,
        dark_trait_text(
            profile.machiavellianism,
            "駆け引きをせず、率直で誠実に振る舞う",
            "目的のためには駆け引きや揺さぶりも辞さない、策略的な一面を見せる",
        ),
    );
    push_optional(
        lines,
        dark_trait_text(
            profile.narcissism,
            "謙虚で、自分を誇示しない",
            "自信家で、自分の話や自慢がつい多くなる",
        ),
    );
    push_optional(
        lines,
        dark_trait_text(
            profile.psychopathy,
            "共感的で、思いやりのある言い方を選ぶ",
            "共感を示すことが少なく、突き放した冷淡な言い方をすることがある",
        ),
    );
    push_optional(
        lines,
        dark_trait_text(
            profile.sadism,
            "意地悪な言い方を避け、相手を傷つけない表現を選ぶ",
            "相手をからかい、皮肉や意地悪な言い回しを楽しむ一面がある",
        ),
    );
    assert(views(lines@) =~= views(old(lines)@) + dark_lines(*profile));
}

fn push_all(lines: &mut Vec<Vec<char>>, extra: &Vec<Vec<char>>)
    ensures
        views(final(lines)@) == views(old(lines)@) + views(extra@),
{
    let ghost base = views(lines@);
    let mut i: usize = 0;
    while i < extra.len()
        invariant
            i <= extra@.len(),
            views(lines@) == base + views(extra@).take(i as int),
        decreases extra.len() - i,
    {
        let line = extra[i].clone();
        assert(line@ == extra@[i as int]@);
        push_line(lines, line);
        assert(views(extra@).take(i as int + 1) =~= views(extra@).take(i as int).push(
            extra@[i as int]@,
        ));
        i = i + 1;
    }
    assert(views(extra@).take(extra@.len() as int) =~= views(extra@));
}

/// Renders the profile as natural-language character direction. Slider
/// values are mapped onto behaviour bands; raw numbers are never emitted.
pub fn render_persona_profile(profile: &PersonaProfile) -> (r: Vec<char>)
    ensures
        r@ == rendered_persona(*profile),
{
    let fields = field_lines(profile);
    let mut lines: Vec<Vec<char>> = Vec::new();
    if fields.len() > 0 {
        push_line(&mut lines, chars_of_str("プロフィール:"));
        push_all(&mut lines, &fields);
    }
    let ghost head = views(lines@);
    assert(head =~= if profile_field_lines(*profile).len() > 0 {
        seq!["プロフィール:"@] + profile_field_lines(*profile)
    } else {
        Seq::empty()
    });
    push_line(&mut lines, chars_of_str("会話の傾向:"));
    push_tendencies(&mut lines, profile);
    push_dark_traits(&mut lines, profile);
    push_utterances(&mut lines, profile);
    assert(views(lines@) =~= persona_lines(*profile));
    join_chars(&lines, "\n")
}

// ---------------------------------------------------------------- prompts

impl PersonaProfile {
    /// A blank persona for a character: no narrative fields and every
    /// slider at the neutral midpoint.
    pub fn for_character(character_id: &str) -> (p: PersonaProfile)
        ensures
            p.character_id@ == character_id@,
            p.name@.len() == 0 && p.first_person_pronoun@.len() == 0 && p.user_name@.len() == 0
                && p.user_address@.len() == 0 && p.relationship@.len() == 0
                && p.speaking_style@.len() == 0 && p.background@.len() == 0
                && p.free_text@.len() == 0,
            p.example_utterances@.len() == 0 && p.interests@.len() == 0 && p.dislikes@.len() == 0
                && p.values@.len() == 0 && p.boundaries@.len() == 0,
            p.initiative == 50 && p.closeness == 50 && p.humor == 50 && p.response_length == 50
                && p.emotional_expression == 50 && p.reaction_interval == 50,
            p.machiavellianism == 50 && p.narcissism == 50 && p.psychopathy == 50 && p.sadism
                == 50,
            !p.allow_intense_dark_expression,
            p.dark_expression_acknowledgement_version is None,
    {
        PersonaProfile {
            character_id: character_id.to_owned(),
            name: String::new(),
            first_person_pronoun: String::new(),
            user_name: String::new(),
            user_address: String::new(),
            relationship: String::new(),
            speaking_style: String::new(),
            example_utterances: Vec::new(),
            interests: Vec::new(),
            dislikes: Vec::new(),
            values: Vec::new(),
            background: String::new(),
            boundaries: Vec::new(),
            free_text: String::new(),
            initiative: 50,
            closeness: 50,
            humor: 50,
            response_length: 50,
            emotional_expression: 50,
            reaction_interval: 50,
            machiavellianism: 50,
            narcissism: 50,
            psychopathy: 50,
            sadism: 50,
            allow_intense_dark_expression: false,
            dark_expression_acknowledgement_version: None,
        }
    }
}

/// The dark-expression policy line: a process safety pause overrides the
/// saved preference.
pub open spec fn dark_policy(p: PersonaProfile, paused: bool) -> Seq<char> {
    if paused {
        PAUSED_DARK_POLICY@
    } else if p.allow_intense_dark_expression {
        INTENSE_DARK_POLICY@
    } else {
        GUARDED_DARK_POLICY@
    }
}

pub open spec fn persona_prompt(p: PersonaProfile, paused: bool) -> Seq<char> {
    PERSONA_PROMPT_PREAMBLE@ + dark_policy(p, paused) + "\n"@ + rendered_persona(p)
}

/// Serializes every persona field into the fixed, versioned prompt shape.
pub fn build_persona_prompt_with_pause(profile: &PersonaProfile, dark_expression_paused: bool) -> (r:
    String)
    ensures
        r@ == persona_prompt(*profile, dark_expression_paused),
{
    let policy = if dark_expression_paused {
        PAUSED_DARK_POLICY
    } else if profile.allow_intense_dark_expression {
        INTENSE_DARK_POLICY
    } else {
        GUARDED_DARK_POLICY
    };
    let mut out = chars_of_str(PERSONA_PROMPT_PREAMBLE);
    push_str(&mut out, policy);
    push_str(&mut out, "\n");
    let rendered = render_persona_profile(profile);
    push_chars(&mut out, &rendered);
    crate::text::string_of(out.as_slice())
}

/// The prompt of a persona without a process safety pause.
pub fn build_persona_prompt(profile: &PersonaProfile) -> (r: String)
    ensures
        r@ == persona_prompt(*profile, false),
{
    build_persona_prompt_with_pause(profile, false)
}

#[derive(Debug, Clone, Copy, PartialEq, Eq, Structural)]
pub enum PersonaPromptSource {
    Persona,
    Legacy,
}

#[derive(Debug)]
pub struct ResolvedPersonaPrompt {
    pub character_id: Option<String>,
    pub character_prompt: String,
    pub source: PersonaPromptSource,
    pub fingerprint: String,
}

/// Compact JSON text of the pair `(character_id, prompt)`: a two-element
/// array holding `null` or the escaped id, then the escaped prompt.
pub open spec fn json_pair_text(character_id: Option<Seq<char>>, prompt: Seq<char>) -> Seq<char> {
    seq!['['] + match character_id {
        None => seq!['n', 'u', 'l', 'l'],
        Some(id) => crate::chat::fingerprint::json_string(id),
    } + seq![','] + crate::chat::fingerprint::json_string(prompt) + seq![']']
}

pub open spec fn option_view(o: Option<&str>) -> Option<Seq<char>> {
    match o {
        Some(s) => Some(s@),
        None => None,
    }
}

pub open spec fn option_string_view(o: Option<String>) -> Option<Seq<char>> {
    match o {
        Some(s) => Some(s@),
        None => None,
    }
}

/// Calls `serde_json::to_string` on the pair. serde_json writes a tuple as
/// a compact array (`[`, the elements separated by `,`, `]`), `None` as
/// `null`, and a string in quotes with `"`, `\` and control characters
/// escaped (`\b \t \n \f \r`, others as `\u00xx` in lowercase hex);
/// serializing strings and an optional string cannot fail, so the error arm
/// is unreachable.
#[verifier::external_body]
fn json_pair(character_id: Option<&str>, prompt: &str) -> (r: String)
    ensures
        r@ == json_pair_text(option_view(character_id), prompt@),
{
    match serde_json::to_string(&(character_id, prompt)) {
        Ok(text) => text,
        Err(_) => String::new(),
    }
}

fn owned(s: &str) -> (r: String)
    ensures
        r@ == s@,
{
    s.to_owned()
}

/// A resolved prompt attributed to the legacy settings, with its
/// fingerprint over the character id and the exact prompt.
pub fn resolved_persona(character_id: Option<&str>, character_prompt: &str) -> (r:
    ResolvedPersonaPrompt)
    ensures
        option_string_view(r.character_id) == option_view(character_id),
        r.character_prompt@ == character_prompt@,
        r.source == PersonaPromptSource::Legacy,
        r.fingerprint@ == json_pair_text(option_view(character_id), character_prompt@),
{
    let fingerprint = json_pair(character_id, character_prompt);
    let id = match character_id {
        Some(id) => Some(owned(id)),
        None => None,
    };
    ResolvedPersonaPrompt {
        character_id: id,
        character_prompt: owned(character_prompt),
        source: PersonaPromptSource::Legacy,
        fingerprint,
    }
}

/// The prompt that a chat turn uses: the persona of the resolved character
/// when one could be loaded or migrated, otherwise the legacy prompt. The
/// argument `persona` is `None` when migration or persistence failed.
pub open spec fn persona_resolution(
    character_id: Option<Seq<char>>,
    legacy_prompt: Seq<char>,
    persona: Option<PersonaProfile>,
    paused: bool,
) -> (Option<Seq<char>>, Seq<char>, PersonaPromptSource) {
    match character_id {
        None => (None, legacy_prompt, PersonaPromptSource::Legacy),
        Some(id) => match persona {
            None => (Some(id), legacy_prompt, PersonaPromptSource::Legacy),
            Some(p) => (Some(id), persona_prompt(p, paused), PersonaPromptSource::Persona),
        },
    }
}

/// Resolves the persona prompt for a stable character identity, failing
/// closed to the legacy prompt.
pub fn resolve_persona_prompt_from(
    character_id: Option<&str>,
    legacy_prompt: &str,
    persona: Option<&PersonaProfile>,
    dark_expression_paused: bool,
) -> (r: ResolvedPersonaPrompt)
    ensures
        ({
            let expected = persona_resolution(
                option_view(character_id),
                legacy_prompt@,
                match persona {
                    Some(p) => Some(*p),
                    None => None,
                },
                dark_expression_paused,
            );
            &&& option_string_view(r.character_id) == expected.0
            &&& r.character_prompt@ == expected.1
            &&& r.source == expected.2
            &&& r.fingerprint@ == json_pair_text(expected.0, expected.1)
        }),
{
    let id = match character_id {
        Some(id) => id,
        None => return resolved_persona(None, legacy_prompt),
    };
    let profile = match persona {
        Some(p) => p,
        None => return resolved_persona(Some(id), legacy_prompt),
    };
    let prompt = build_persona_prompt_with_pause(profile, dark_expression_paused);
    let mut resolved = resolved_persona(Some(id), prompt.as_str());
    resolved.source = PersonaPromptSource::Persona;
    resolved
}

/// The persona to create from the legacy character prompt, or `None` when a
/// persona already exists for the character (existing personas win, which
/// makes repeated migration idempotent).
pub fn legacy_migration(persona_exists: bool, character_id: &str, legacy_prompt: &str) -> (r:
    Option<PersonaProfile>)
    ensures
        persona_exists ==> r is None,
        !persona_exists ==> r is Some && r->0.character_id@ == character_id@ && r->0.free_text@
            == legacy_prompt@ && r->0.name@.len() == 0 && r->0.example_utterances@.len() == 0
            && r->0.initiative == 50 && r->0.sadism == 50 && !r->0.allow_intense_dark_expression,
{
    if persona_exists {
        return None;
    }
    let mut profile = PersonaProfile::for_character(character_id);
    profile.free_text = owned(legacy_prompt);
    Some(profile)
}

// ---------------------------------------------------------------- store

/// Every saved persona, at most one per character.
#[derive(Debug)]
pub struct PersonaSettings {
    pub personas: Vec<PersonaProfile>,
}

pub open spec fn persona_ids(ps: Seq<PersonaProfile>) -> Seq<Seq<char>> {
    ps.map_values(|p: PersonaProfile| p.character_id@)
}

impl PersonaSettings {
    pub open spec fn wf(&self) -> bool {
        persona_ids(self.personas@).no_duplicates()
    }

    pub fn empty() -> (s: PersonaSettings)
        ensures
            s.personas@.len() == 0,
            s.wf(),
    {
        let s = PersonaSettings { personas: Vec::new() };
        assert(persona_ids(s.personas@) =~= Seq::<Seq<char>>::empty());
        s
    }

    /// Where the persona of `character_id` is stored.
    pub fn position_of(&self, character_id: &str) -> (r: Option<usize>)
        ensures
            match r {
                Some(i) => i < self.personas@.len() && self.personas@[i as int].character_id@ == character_id@,
                None => !persona_ids(self.personas@).contains(character_id@),
            },
    {
        let mut i: usize = 0;
        while i < self.personas.len()
            invariant
                i <= self.personas@.len(),
                forall|k: int| 0 <= k < i ==> self.personas@[k].character_id@ != character_id@,
            decreases self.personas.len() - i,
        {
            if crate::text::str_equal(self.personas[i].character_id.as_str(), character_id) {
                return Some(i);
            }
            i = i + 1;
        }
        proof {
            if persona_ids(self.personas@).contains(character_id@) {
                let k = choose|k: int| 0 <= k < persona_ids(self.personas@).len() && persona_ids(self.personas@)[k]
                    == character_id@;
                assert(self.personas@[k].character_id@ == character_id@);
            }
        }
        None
    }

    /// Stores `profile` as its character's persona: an existing one is
    /// replaced in place, every other persona is kept.
    pub fn upsert(&mut self, profile: PersonaProfile) -> (r: usize)
        requires
            old(self).wf(),
        ensures
            final(self).wf(),
            final(self).personas@ == upserted(old(self).personas@, profile),
            r < final(self).personas@.len(),
            final(self).personas@[r as int] == profile,
    {
        let ghost ids = persona_ids(self.personas@);
        match self.position_of(profile.character_id.as_str()) {
            Some(i) => {
                let ghost id = profile.character_id@;
                let ghost old_ps = self.personas@;
                self.personas.set(i, profile);
                proof {
                    let q = self.personas@[i as int];
                    lemma_persona_position(old_ps, id);
                    match persona_position(old_ps, id) {
                        Some(k) => {
                            if k != i as int {
                                assert(ids[k] == ids[i as int]);
                            }
                        },
                        None => {},
                    }
                    assert(self.personas@ =~= upserted(old_ps, q));
                    assert(persona_ids(self.personas@) =~= ids.update(i as int, id));
                    assert(ids[i as int] == id);
                    assert(persona_ids(self.personas@) =~= ids);
                }
                i
            },
            None => {
                let n = self.personas.len();
                let ghost id = profile.character_id@;
                let ghost old_ps = self.personas@;
                self.personas.push(profile);
                proof {
                    lemma_persona_position(old_ps, id);
                    if persona_position(old_ps, id) is Some {
                        assert(ids[persona_position(old_ps, id)->0] == id);
                    }
                    assert(persona_ids(self.personas@) =~= ids.push(id));
                    assert forall|a: int, b: int| 0 <= a < b < ids.push(id).len() implies ids.push(id)[a] != ids.push(id)[b] by {
                        if b == ids.len() {
                            assert(ids.contains(ids[a]));
                        }
                    }
                }
                n
            },
        }
    }

    /// Creates a character's persona from the legacy character prompt
    /// unless one exists. Returns where the persona is and whether it was
    /// created; an existing persona wins, so repeating this changes nothing.
    pub fn migrate_legacy(&mut self, character_id: &str, legacy_prompt: &str) -> (r: (usize, bool))
        requires
            old(self).wf(),
        ensures
            final(self).wf(),
            r.0 < final(self).personas@.len(),
            final(self).personas@[r.0 as int].character_id@ == character_id@,
            r.1 == !persona_ids(old(self).personas@).contains(character_id@),
            !r.1 ==> final(self).personas@ == old(self).personas@,
            r.1 ==> final(self).personas@.len() == old(self).personas@.len() + 1 && final(self).personas@.take(
                old(self).personas@.len() as int,
            ) == old(self).personas@ && final(self).personas@[r.0 as int].free_text@ == legacy_prompt@,
    {
        match self.position_of(character_id) {
            Some(i) => {
                proof {
                    assert(persona_ids(self.personas@)[i as int] == character_id@);
                }
                (i, false)
            },
            None => {
                let mut profile = PersonaProfile::for_character(character_id);
                profile.free_text = owned(legacy_prompt);
                let ghost before = self.personas@;
                let ghost q = profile;
                proof {
                    lemma_persona_position(before, q.character_id@);
                    if persona_position(before, q.character_id@) is Some {
                        assert(persona_ids(before)[persona_position(before, q.character_id@)->0] == character_id@);
                    }
                }
                let i = self.upsert(profile);
                assert(self.personas@.take(before.len() as int) =~= before);
                (i, true)
            },
        }
    }
}

/// Where the first persona of `id` is stored.
pub open spec fn persona_position(ps: Seq<PersonaProfile>, id: Seq<char>) -> Option<int>
    decreases ps.len(),
{
    if ps.len() == 0 {
        None
    } else {
        match persona_position(ps.drop_last(), id) {
            Some(i) => Some(i),
            None => if ps.last().character_id@ == id {
                Some(ps.len() - 1)
            } else {
                None
            },
        }
    }
}

pub proof fn lemma_persona_position(ps: Seq<PersonaProfile>, id: Seq<char>)
    ensures
        match persona_position(ps, id) {
            Some(i) => 0 <= i < ps.len() && ps[i].character_id@ == id && forall|j: int|
                0 <= j < i ==> ps[j].character_id@ != id,
            None => forall|j: int| 0 <= j < ps.len() ==> ps[j].character_id@ != id,
        },
    decreases ps.len(),
{
    if ps.len() > 0 {
        lemma_persona_position(ps.drop_last(), id);
        assert(forall|j: int| 0 <= j < ps.len() - 1 ==> ps.drop_last()[j] == ps[j]);
    }
}

/// The persona stored for `id`, if any.
pub open spec fn stored_persona(ps: Seq<PersonaProfile>, id: Seq<char>) -> Option<PersonaProfile> {
    match persona_position(ps, id) {
        Some(i) => Some(ps[i]),
        None => None,
    }
}

/// The store after saving `p`: the entry of its character replaced in
/// place, or `p` appended.
pub open spec fn upserted(ps: Seq<PersonaProfile>, p: PersonaProfile) -> Seq<PersonaProfile> {
    match persona_position(ps, p.character_id@) {
        Some(i) => ps.update(i, p),
        None => ps.push(p),
    }
}

/// Reading back a saved persona gives what was saved, and saving one
/// character's persona leaves every other character's persona as it was.
pub proof fn law_saved_persona_reads_back(ps: Seq<PersonaProfile>, p: PersonaProfile, other: Seq<char>)
    requires
        persona_ids(ps).no_duplicates(),
        other != p.character_id@,
    ensures
        stored_persona(upserted(ps, p), p.character_id@) == Some(p),
        stored_persona(upserted(ps, p), other) == stored_persona(ps, other),
{
    let after = upserted(ps, p);
    lemma_persona_position(ps, p.character_id@);
    lemma_persona_position(ps, other);
    lemma_persona_position(after, p.character_id@);
    lemma_persona_position(after, other);
    let slot = match persona_position(ps, p.character_id@) {
        Some(i) => i,
        None => ps.len() as int,
    };
    assert(after[slot] == p);
    assert(forall|m: int| 0 <= m < ps.len() && m != slot ==> after[m] == ps[m]);
    match persona_position(after, p.character_id@) {
        Some(k) => {
            if k != slot {
                if k < slot {
                    assert(after[k] == ps[k]);
                } else {
                    assert(k < ps.len());
                    assert(after[k] == ps[k]);
                    assert(persona_ids(ps)[k] == persona_ids(ps)[slot]);
                }
            }
        },
        None => {
            assert(after[slot].character_id@ == p.character_id@);
        },
    }
    match persona_position(ps, other) {
        Some(j) => {
            assert(after[j] == ps[j]);
            match persona_position(after, other) {
                Some(m) => {
                    if m != j {
                        assert(m != slot);
                        assert(m < ps.len());
                        assert(after[m] == ps[m]);
                        assert(persona_ids(ps)[m] == persona_ids(ps)[j]);
                    }
                },
                None => {
                    assert(after[j].character_id@ == other);
                },
            }
        },
        None => {
            match persona_position(after, other) {
                Some(m) => {
                    assert(m != slot);
                    assert(after[m] == ps[m]);
                },
                None => {},
            }
        },
    }
}

// ---------------------------------------------------------------- laws

/// A process safety pause always yields the paused policy line, whatever
/// intensity the saved persona allows, and the persona body still renders
/// unchanged after it.
pub proof fn law_safety_pause_overrides_saved_intensity(p: PersonaProfile)
    ensures
        dark_policy(p, true) == PAUSED_DARK_POLICY@,
        persona_prompt(p, true) == PERSONA_PROMPT_PREAMBLE@ + PAUSED_DARK_POLICY@ + "\n"@
            + rendered_persona(p),
{
}

/// Without a pause, the intense policy appears exactly when the persona
/// allows intense dark expression.
pub proof fn law_intense_policy_only_when_allowed(p: PersonaProfile)
    ensures
        dark_policy(p, false) == if p.allow_intense_dark_expression {
            INTENSE_DARK_POLICY@
        } else {
            GUARDED_DARK_POLICY@
        },
{
}

/// A dark-trait slider reads in two directions: a low value (at most 39)
/// renders the trait's low text and a high one (above 60) its high text;
/// mirroring a value around 50 swaps which text renders.
pub proof fn law_dark_trait_sides(value: u8, low: Seq<char>, high: Seq<char>)
    ensures
        value <= 39 ==> dark_trait_spec(value, low, high) == Some(low),
        value >= 61 ==> dark_trait_spec(value, low, high) == Some(high),
        value <= 100 ==> dark_trait_spec(value, low, high) == dark_trait_spec((100 - value) as u8, high, low),
{
}

/// With the other dark traits neutral, a low sadism value renders exactly
/// the gentle line, and a high one exactly the teasing line.
pub proof fn law_sadism_low_and_high_lines(p: PersonaProfile)
    requires
        40 <= p.machiavellianism <= 60,
        40 <= p.narcissism <= 60,
        40 <= p.psychopathy <= 60,
    ensures
        p.sadism <= 39 ==> dark_lines(p) =~= seq!["- "@ + "意地悪な言い方を避け、相手を傷つけない表現を選ぶ"@],
        p.sadism >= 61 ==> dark_lines(p) =~= seq!["- "@ + "相手をからかい、皮肉や意地悪な言い回しを楽しむ一面がある"@],
{
}

/// Dark-trait sliders in the neutral band 40..=60 add no dark lines.
pub proof fn law_neutral_dark_traits_render_nothing(p: PersonaProfile)
    requires
        40 <= p.machiavellianism <= 60,
        40 <= p.narcissism <= 60,
        40 <= p.psychopathy <= 60,
        40 <= p.sadism <= 60,
    ensures
        dark_lines(p) =~= Seq::<Seq<char>>::empty(),
{
}

/// A narrative field produces a line exactly when its trimmed value is not
/// blank, and the line carries the trimmed value verbatim.
pub proof fn law_blank_fields_are_omitted(label: Seq<char>, value: Seq<char>)
    ensures
        field_line(label, value).len() == 0 <==> trim_ws(value).len() == 0,
        trim_ws(value).len() > 0 ==> field_line(label, value)[0] == "- "@ + label + ": "@
            + trim_ws(value),
{
}

/// Every slider value maps to one of the five bands, monotonically.
pub proof fn law_band_index_is_monotone(a: u8, b: u8)
    requires
        a <= b,
    ensures
        0 <= band_index_spec(a) <= band_index_spec(b) < 5,
{
}

/// Without a character identity the legacy prompt is used as is.
pub proof fn law_missing_character_uses_legacy(legacy_prompt: Seq<char>, persona: Option<PersonaProfile>, paused: bool)
    ensures
        persona_resolution(None, legacy_prompt, persona, paused) == (
            None::<Seq<char>>,
            legacy_prompt,
            PersonaPromptSource::Legacy,
        ),
{
}

} // verus!
