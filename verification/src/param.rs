//! The parameters of the requests, and their flat JSON objects.
use crate::json::{
    bool_field, decimal_field, items_view, lemma_lookup_at, lookup, member_of, members_view, nat_field, opt_nat_field, opt_text_field,
    read_bool, read_decimal, read_opt_text, read_opt_u64, read_text, read_u64, text_field, Json,
    JsonView, Member, MembersView,
};
use crate::number::{
    decimal_text, lemma_decimal_text, lemma_nat_text, lemma_u64_text, nat_text, u64_to_text,
    Decimal,
};
use vstd::prelude::*;
use vstd::string::StringExecFns;

verus! {

/// The tuning parameters of a completion request.
#[derive(Debug, Clone)]
pub struct OptParams {
    pub max_tokens: usize,
    pub temperature: Decimal,
    pub suffix: Option<String>,
    pub top_p: Decimal,
    pub n: usize,
    pub stream: bool,
    pub logprobs: Option<usize>,
    pub echo: bool,
    pub stop: Option<String>,
    pub presence_penalty: Decimal,
    pub frequency_penalty: Decimal,
    pub best_of: usize,
    pub user: String,
}

pub struct OptParamsView {
    pub max_tokens: nat,
    pub temperature: int,
    pub suffix: Option<Seq<char>>,
    pub top_p: int,
    pub n: nat,
    pub stream: bool,
    pub logprobs: Option<nat>,
    pub echo: bool,
    pub stop: Option<Seq<char>>,
    pub presence_penalty: int,
    pub frequency_penalty: int,
    pub best_of: nat,
    pub user: Seq<char>,
}

/// The view of a text that may be missing.
pub open spec fn opt_text_view(o: Option<String>) -> Option<Seq<char>> {
    match o {
        Some(s) => Some(s@),
        None => None,
    }
}

/// The view of a count that may be missing.
pub open spec fn opt_count_view(o: Option<usize>) -> Option<nat> {
    match o {
        Some(n) => Some(n as nat),
        None => None,
    }
}

impl View for OptParams {
    type V = OptParamsView;

    open spec fn view(&self) -> OptParamsView {
        OptParamsView {
            max_tokens: self.max_tokens as nat,
            temperature: self.temperature.thousandths as int,
            suffix: opt_text_view(self.suffix),
            top_p: self.top_p.thousandths as int,
            n: self.n as nat,
            stream: self.stream,
            logprobs: opt_count_view(self.logprobs),
            echo: self.echo,
            stop: opt_text_view(self.stop),
            presence_penalty: self.presence_penalty.thousandths as int,
            frequency_penalty: self.frequency_penalty.thousandths as int,
            best_of: self.best_of as nat,
            user: self.user@,
        }
    }
}

/// The documented defaults of the tuning parameters.
pub open spec fn default_opt_params() -> OptParamsView {
    OptParamsView {
        max_tokens: 16,
        temperature: 1000,
        suffix: None,
        top_p: 1000,
        n: 1,
        stream: false,
        logprobs: None,
        echo: false,
        stop: None,
        presence_penalty: 0,
        frequency_penalty: 0,
        best_of: 1,
        user: Seq::empty(),
    }
}

impl Default for OptParams {
    fn default() -> (p: OptParams)
        ensures
            p@ == default_opt_params(),
    {
        OptParams {
            max_tokens: 16,
            temperature: Decimal { thousandths: 1000 },
            suffix: None,
            top_p: Decimal { thousandths: 1000 },
            n: 1,
            stream: false,
            logprobs: None,
            echo: false,
            stop: None,
            presence_penalty: Decimal { thousandths: 0 },
            frequency_penalty: Decimal { thousandths: 0 },
            best_of: 1,
            user: String::new(),
        }
    }
}

/// The JSON number of a count.
pub open spec fn count_json(n: nat) -> JsonView {
    JsonView::Number(nat_text(n))
}

/// The JSON number of a decimal, given in thousandths.
pub open spec fn decimal_json(t: int) -> JsonView {
    JsonView::Number(decimal_text(t))
}

/// The JSON value of a text that may be missing: `null` where it is.
pub open spec fn opt_text_json(o: Option<Seq<char>>) -> JsonView {
    match o {
        Some(s) => JsonView::Text(s),
        None => JsonView::Null,
    }
}

/// The JSON value of a count that may be missing: `null` where it is.
pub open spec fn opt_count_json(o: Option<nat>) -> JsonView {
    match o {
        Some(n) => count_json(n),
        None => JsonView::Null,
    }
}

/// The members that the tuning parameters of a completion request add to
/// the request's object, in their order.
pub open spec fn opt_params_members(p: OptParamsView) -> MembersView {
    seq![
        ("max_tokens"@, count_json(p.max_tokens)),
        ("temperature"@, decimal_json(p.temperature)),
        ("suffix"@, opt_text_json(p.suffix)),
        ("top_p"@, decimal_json(p.top_p)),
        ("n"@, count_json(p.n)),
        ("stream"@, JsonView::Bool(p.stream)),
        ("logprobs"@, opt_count_json(p.logprobs)),
        ("echo"@, JsonView::Bool(p.echo)),
        ("stop"@, opt_text_json(p.stop)),
        ("presence_penalty"@, decimal_json(p.presence_penalty)),
        ("frequency_penalty"@, decimal_json(p.frequency_penalty)),
        ("best_of"@, count_json(p.best_of)),
        ("user"@, JsonView::Text(p.user)),
    ]
}

/// The member for a count.
pub fn count_member(key: &str, n: usize) -> (m: Member)
    ensures
        m@ == (key@, count_json(n as nat)),
        m@.1.printable(),
{
    proof {
        lemma_u64_text(n as nat);
    }
    Member::new(key, Json::Number(u64_to_text(n as u64)))
}

/// The member for a decimal.
pub fn decimal_member(key: &str, d: Decimal) -> (m: Member)
    ensures
        m@ == (key@, decimal_json(d.thousandths as int)),
        m@.1.printable(),
{
    Member::new(key, Json::Number(d.to_text()))
}

/// The member for a text.
pub fn text_member(key: &str, s: &String) -> (m: Member)
    ensures
        m@ == (key@, JsonView::Text(s@)),
        m@.1.printable(),
{
    Member::new(key, Json::Text(s.clone()))
}

/// The member for a truth value.
pub fn bool_member(key: &str, b: bool) -> (m: Member)
    ensures
        m@ == (key@, JsonView::Bool(b)),
        m@.1.printable(),
{
    Member::new(key, Json::Bool(b))
}

/// The member for a text that may be missing.
pub fn opt_text_member(key: &str, o: &Option<String>) -> (m: Member)
    ensures
        m@ == (key@, opt_text_json(opt_text_view(*o))),
        m@.1.printable(),
{
    match o {
        Some(s) => Member::new(key, Json::Text(s.clone())),
        None => Member::new(key, Json::Null),
    }
}

/// The member for a count that may be missing.
pub fn opt_count_member(key: &str, o: Option<usize>) -> (m: Member)
    ensures
        m@ == (key@, opt_count_json(opt_count_view(o))),
        m@.1.printable(),
{
    match o {
        Some(n) => count_member(key, n),
        None => Member::new(key, Json::Null),
    }
}

/// Every member of a list is printable.
pub open spec fn members_printable(members: MembersView) -> bool {
    forall|i: int| 0 <= i < members.len() ==> (#[trigger] members[i]).1.printable()
}

impl OptParams {
    /// The members that these parameters add to a request's object.
    pub fn members(&self) -> (members: Vec<Member>)
        ensures
            members_view(members@) == opt_params_members(self@),
            members_printable(members_view(members@)),
    {
        let mut members: Vec<Member> = Vec::new();
        members.push(count_member("max_tokens", self.max_tokens));
        members.push(decimal_member("temperature", self.temperature));
        members.push(opt_text_member("suffix", &self.suffix));
        members.push(decimal_member("top_p", self.top_p));
        members.push(count_member("n", self.n));
        members.push(bool_member("stream", self.stream));
        members.push(opt_count_member("logprobs", self.logprobs));
        members.push(bool_member("echo", self.echo));
        members.push(opt_text_member("stop", &self.stop));
        members.push(decimal_member("presence_penalty", self.presence_penalty));
        members.push(decimal_member("frequency_penalty", self.frequency_penalty));
        members.push(count_member("best_of", self.best_of));
        members.push(text_member("user", &self.user));
        assert(members_view(members@) =~= opt_params_members(self@));
        members
    }

    /// The parameters alone as a JSON object.
    pub fn to_json(&self) -> (json: Json)
        ensures
            json@ == JsonView::Object(opt_params_members(self@)),
            json@.printable(),
    {
        Json::object(self.members())
    }
}

/// The tuning parameters that a JSON object holds; `None` where a member
/// that must be there is missing or of another type. A member that this
/// type does not know is passed over.
pub open spec fn decode_opt_params(tree: JsonView) -> Option<OptParamsView> {
    let max = usize::MAX as nat;
    let max_tokens = nat_field(tree, "max_tokens"@, max);
    let temperature = decimal_field(tree, "temperature"@);
    let suffix = opt_text_field(tree, "suffix"@);
    let top_p = decimal_field(tree, "top_p"@);
    let n = nat_field(tree, "n"@, max);
    let stream = bool_field(tree, "stream"@);
    let logprobs = opt_nat_field(tree, "logprobs"@, max);
    let echo = bool_field(tree, "echo"@);
    let stop = opt_text_field(tree, "stop"@);
    let presence_penalty = decimal_field(tree, "presence_penalty"@);
    let frequency_penalty = decimal_field(tree, "frequency_penalty"@);
    let best_of = nat_field(tree, "best_of"@, max);
    let user = text_field(tree, "user"@);
    if max_tokens is Some && temperature is Some && suffix is Some && top_p is Some && n is Some
        && stream is Some && logprobs is Some && echo is Some && stop is Some
        && presence_penalty is Some && frequency_penalty is Some && best_of is Some
        && user is Some {
        Some(
            OptParamsView {
                max_tokens: max_tokens->0,
                temperature: temperature->0,
                suffix: suffix->0,
                top_p: top_p->0,
                n: n->0,
                stream: stream->0,
                logprobs: logprobs->0,
                echo: echo->0,
                stop: stop->0,
                presence_penalty: presence_penalty->0,
                frequency_penalty: frequency_penalty->0,
                best_of: best_of->0,
                user: user->0,
            },
        )
    } else {
        None
    }
}

/// Reads a count under a key.
pub fn read_count(json: &Json, key: &str) -> (r: Option<usize>)
    ensures
        match nat_field(json@, key@, usize::MAX as nat) {
            Some(n) => r == Some(n as usize),
            None => r is None,
        },
{
    match read_u64(json, key, usize::MAX as u64) {
        Some(n) => Some(n as usize),
        None => None,
    }
}

/// Reads a count under a key that may be missing or `null`.
pub fn read_opt_count(json: &Json, key: &str) -> (r: Option<Option<usize>>)
    ensures
        match opt_nat_field(json@, key@, usize::MAX as nat) {
            Some(Some(n)) => r == Some(Some(n as usize)),
            Some(None) => r == Some(None::<usize>),
            None => r is None,
        },
{
    match read_opt_u64(json, key, usize::MAX as u64) {
        Some(Some(n)) => Some(Some(n as usize)),
        Some(None) => Some(None),
        None => None,
    }
}

impl OptParams {
    /// Reads the tuning parameters from a JSON object.
    pub fn from_json(json: &Json) -> (r: Option<OptParams>)
        ensures
            match decode_opt_params(json@) {
                Some(v) => r matches Some(p) && p@ == v,
                None => r is None,
            },
    {
        let max_tokens = read_count(json, "max_tokens")?;
        let temperature = read_decimal(json, "temperature")?;
        let suffix = read_opt_text(json, "suffix")?;
        let top_p = read_decimal(json, "top_p")?;
        let n = read_count(json, "n")?;
        let stream = read_bool(json, "stream")?;
        let logprobs = read_opt_count(json, "logprobs")?;
        let echo = read_bool(json, "echo")?;
        let stop = read_opt_text(json, "stop")?;
        let presence_penalty = read_decimal(json, "presence_penalty")?;
        let frequency_penalty = read_decimal(json, "frequency_penalty")?;
        let best_of = read_count(json, "best_of")?;
        let user = read_text(json, "user")?;
        Some(
            OptParams {
                max_tokens,
                temperature,
                suffix,
                top_p,
                n,
                stream,
                logprobs,
                echo,
                stop,
                presence_penalty,
                frequency_penalty,
                best_of,
                user,
            },
        )
    }
}

/// The parameters of a completion request.
#[derive(Debug, Clone)]
pub struct CompletionParams {
    pub model: String,
    pub prompt: String,
    pub opts: OptParams,
}

pub struct CompletionParamsView {
    pub model: Seq<char>,
    pub prompt: Seq<char>,
    pub opts: OptParamsView,
}

impl View for CompletionParams {
    type V = CompletionParamsView;

    open spec fn view(&self) -> CompletionParamsView {
        CompletionParamsView { model: self.model@, prompt: self.prompt@, opts: self.opts@ }
    }
}

/// The members of the flat object of a completion request: the model and
/// the prompt, then the tuning parameters, all on one level.
pub open spec fn completion_params_members(p: CompletionParamsView) -> MembersView {
    seq![("model"@, JsonView::Text(p.model)), ("prompt"@, JsonView::Text(p.prompt))]
        + opt_params_members(p.opts)
}

/// The flat object of a completion request.
pub open spec fn completion_params_json(p: CompletionParamsView) -> JsonView {
    JsonView::Object(completion_params_members(p))
}

/// The parameters of a completion request that a JSON object holds.
pub open spec fn decode_completion_params(tree: JsonView) -> Option<CompletionParamsView> {
    let model = text_field(tree, "model"@);
    let prompt = text_field(tree, "prompt"@);
    let opts = decode_opt_params(tree);
    if model is Some && prompt is Some && opts is Some {
        Some(CompletionParamsView { model: model->0, prompt: prompt->0, opts: opts->0 })
    } else {
        None
    }
}

impl CompletionParams {
    /// The flat JSON object of the request.
    pub fn to_json(&self) -> (json: Json)
        ensures
            json@ == completion_params_json(self@),
            json@.printable(),
    {
        let mut members: Vec<Member> = Vec::new();
        members.push(text_member("model", &self.model));
        members.push(text_member("prompt", &self.prompt));
        let mut opts = self.opts.members();
        let ghost opts_view = members_view(opts@);
        members.append(&mut opts);
        assert(members_view(members@) =~= completion_params_members(self@)) by {
            assert forall|i: int| 0 <= i < members@.len() implies members_view(members@)[i]
                == completion_params_members(self@)[i] by {
                if i >= 2 {
                    assert(members_view(members@)[i] == opts_view[i - 2]);
                }
            }
        }
        assert forall|i: int| 0 <= i < members@.len() implies (#[trigger] members_view(
            members@,
        )[i]).1.printable() by {
            if i >= 2 {
                assert(members_view(members@)[i] == opts_view[i - 2]);
            }
        }
        Json::object(members)
    }

    /// Reads the parameters of a completion request from a JSON object.
    pub fn from_json(json: &Json) -> (r: Option<CompletionParams>)
        ensures
            match decode_completion_params(json@) {
                Some(v) => r matches Some(p) && p@ == v,
                None => r is None,
            },
    {
        let model = read_text(json, "model")?;
        let prompt = read_text(json, "prompt")?;
        let opts = OptParams::from_json(json)?;
        Some(CompletionParams { model, prompt, opts })
    }
}

/// What the keys of a completion request spell.
proof fn reveal_completion_keys()
    ensures
        "model"@ == seq!['m', 'o', 'd', 'e', 'l'],
        "prompt"@ == seq!['p', 'r', 'o', 'm', 'p', 't'],
        "max_tokens"@.len() == 10,
        "temperature"@.len() == 11,
        "suffix"@ == seq!['s', 'u', 'f', 'f', 'i', 'x'],
        "top_p"@ == seq!['t', 'o', 'p', '_', 'p'],
        "n"@.len() == 1,
        "stream"@ == seq!['s', 't', 'r', 'e', 'a', 'm'],
        "logprobs"@.len() == 8,
        "echo"@ == seq!['e', 'c', 'h', 'o'],
        "stop"@ == seq!['s', 't', 'o', 'p'],
        "presence_penalty"@.len() == 16,
        "frequency_penalty"@.len() == 17,
        "best_of"@.len() == 7,
        "user"@ == seq!['u', 's', 'e', 'r'],
{
    reveal_strlit("model");
    reveal_strlit("prompt");
    reveal_strlit("max_tokens");
    reveal_strlit("temperature");
    reveal_strlit("suffix");
    reveal_strlit("top_p");
    reveal_strlit("n");
    reveal_strlit("stream");
    reveal_strlit("logprobs");
    reveal_strlit("echo");
    reveal_strlit("stop");
    reveal_strlit("presence_penalty");
    reveal_strlit("frequency_penalty");
    reveal_strlit("best_of");
    reveal_strlit("user");
    assert("model"@ =~= seq!['m', 'o', 'd', 'e', 'l']);
    assert("prompt"@ =~= seq!['p', 'r', 'o', 'm', 'p', 't']);
    assert("suffix"@ =~= seq!['s', 'u', 'f', 'f', 'i', 'x']);
    assert("top_p"@ =~= seq!['t', 'o', 'p', '_', 'p']);
    assert("stream"@ =~= seq!['s', 't', 'r', 'e', 'a', 'm']);
    assert("echo"@ =~= seq!['e', 'c', 'h', 'o']);
    assert("stop"@ =~= seq!['s', 't', 'o', 'p']);
    assert("user"@ =~= seq!['u', 's', 'e', 'r']);
}

/// The keys of a completion request differ from one another.
proof fn lemma_completion_keys_differ(p: CompletionParamsView)
    ensures
        forall|i: int, j: int|
            0 <= j < i < 15 ==> (#[trigger] completion_params_members(p)[j]).0 != (
            #[trigger] completion_params_members(p)[i]).0,
{
    reveal_completion_keys();
    let ms = completion_params_members(p);
    let keys = seq![
        "model"@,
        "prompt"@,
        "max_tokens"@,
        "temperature"@,
        "suffix"@,
        "top_p"@,
        "n"@,
        "stream"@,
        "logprobs"@,
        "echo"@,
        "stop"@,
        "presence_penalty"@,
        "frequency_penalty"@,
        "best_of"@,
        "user"@,
    ];
    assert forall|i: int| 0 <= i < 15 implies (#[trigger] ms[i]).0 == keys[i] by {}
    assert("suffix"@[1] != "stream"@[1]);
    assert("model"@[0] != "top_p"@[0]);
    assert("prompt"@[0] != "suffix"@[0]);
    assert("prompt"@[0] != "stream"@[0]);
    assert("echo"@[0] != "stop"@[0]);
    assert("echo"@[0] != "user"@[0]);
    assert("stop"@[0] != "user"@[0]);
    assert forall|i: int, j: int| 0 <= j < i < 15 implies keys[j] != keys[i] by {}
}

/// Each key of a completion request finds the member that was written for
/// it.
proof fn lemma_completion_lookups(p: CompletionParamsView)
    ensures
        forall|i: int|
            0 <= i < 15 ==> lookup(
                completion_params_members(p),
                (#[trigger] completion_params_members(p)[i]).0,
            ) == Some(completion_params_members(p)[i].1),
{
    let ms = completion_params_members(p);
    lemma_completion_keys_differ(p);
    assert forall|i: int| 0 <= i < 15 implies lookup(ms, (#[trigger] ms[i]).0) == Some(
        ms[i].1,
    ) by {
        lemma_lookup_at(ms, i);
    }
}

/// The round trip of a completion request: writing the parameters as their
/// flat object and reading that object gives the same parameters, field
/// for field.
pub proof fn lemma_completion_params_round_trip(p: CompletionParams)
    ensures
        decode_completion_params(completion_params_json(p@)) == Some(p@),
{
    let v = p@;
    let ms = completion_params_members(v);
    let tree = completion_params_json(v);
    lemma_completion_lookups(v);
    assert(ms[0] == ("model"@, JsonView::Text(v.model)));
    assert(ms[1] == ("prompt"@, JsonView::Text(v.prompt)));
    assert(ms[2] == ("max_tokens"@, count_json(v.opts.max_tokens)));
    assert(ms[3] == ("temperature"@, decimal_json(v.opts.temperature)));
    assert(ms[4] == ("suffix"@, opt_text_json(v.opts.suffix)));
    assert(ms[5] == ("top_p"@, decimal_json(v.opts.top_p)));
    assert(ms[6] == ("n"@, count_json(v.opts.n)));
    assert(ms[7] == ("stream"@, JsonView::Bool(v.opts.stream)));
    assert(ms[8] == ("logprobs"@, opt_count_json(v.opts.logprobs)));
    assert(ms[9] == ("echo"@, JsonView::Bool(v.opts.echo)));
    assert(ms[10] == ("stop"@, opt_text_json(v.opts.stop)));
    assert(ms[11] == ("presence_penalty"@, decimal_json(v.opts.presence_penalty)));
    assert(ms[12] == ("frequency_penalty"@, decimal_json(v.opts.frequency_penalty)));
    assert(ms[13] == ("best_of"@, count_json(v.opts.best_of)));
    assert(ms[14] == ("user"@, JsonView::Text(v.opts.user)));
    lemma_nat_text(v.opts.max_tokens);
    lemma_nat_text(v.opts.n);
    lemma_nat_text(v.opts.best_of);
    if v.opts.logprobs is Some {
        lemma_nat_text(v.opts.logprobs->0);
    }
    lemma_decimal_text(v.opts.temperature);
    lemma_decimal_text(v.opts.top_p);
    lemma_decimal_text(v.opts.presence_penalty);
    lemma_decimal_text(v.opts.frequency_penalty);
    assert(text_field(tree, "model"@) == Some(v.model));
    assert(text_field(tree, "prompt"@) == Some(v.prompt));
    assert(decode_opt_params(tree) == Some(v.opts));
}

/// The tuning parameters of an edit request.
#[derive(Debug, Clone)]
pub struct OptEditParams {
    /// The number of edits; its key on the wire is `n`.
    pub num_edits: usize,
    pub temperature: Decimal,
    pub top_p: usize,
}

pub struct OptEditParamsView {
    pub num_edits: nat,
    pub temperature: int,
    pub top_p: nat,
}

impl View for OptEditParams {
    type V = OptEditParamsView;

    open spec fn view(&self) -> OptEditParamsView {
        OptEditParamsView {
            num_edits: self.num_edits as nat,
            temperature: self.temperature.thousandths as int,
            top_p: self.top_p as nat,
        }
    }
}

impl Default for OptEditParams {
    fn default() -> (p: OptEditParams)
        ensures
            p@ == (OptEditParamsView { num_edits: 1, temperature: 1000, top_p: 1 }),
    {
        OptEditParams { num_edits: 1, temperature: Decimal { thousandths: 1000 }, top_p: 1 }
    }
}

/// The parameters of an edit request.
#[derive(Debug, Clone)]
pub struct EditParams {
    pub model: String,
    pub input: String,
    pub instruction: String,
    pub opts: OptEditParams,
}

pub struct EditParamsView {
    pub model: Seq<char>,
    pub input: Seq<char>,
    pub instruction: Seq<char>,
    pub opts: OptEditParamsView,
}

impl View for EditParams {
    type V = EditParamsView;

    open spec fn view(&self) -> EditParamsView {
        EditParamsView {
            model: self.model@,
            input: self.input@,
            instruction: self.instruction@,
            opts: self.opts@,
        }
    }
}

/// The members that the tuning parameters of an edit request add to the
/// request's object.
pub open spec fn opt_edit_params_members(p: OptEditParamsView) -> MembersView {
    seq![
        ("n"@, count_json(p.num_edits)),
        ("temperature"@, decimal_json(p.temperature)),
        ("top_p"@, count_json(p.top_p)),
    ]
}

/// The members of the flat object of an edit request.
pub open spec fn edit_params_members(p: EditParamsView) -> MembersView {
    seq![
        ("model"@, JsonView::Text(p.model)),
        ("input"@, JsonView::Text(p.input)),
        ("instruction"@, JsonView::Text(p.instruction)),
    ] + opt_edit_params_members(p.opts)
}

/// The tuning parameters of an edit request that a JSON object holds.
pub open spec fn decode_opt_edit_params(tree: JsonView) -> Option<OptEditParamsView> {
    let num_edits = nat_field(tree, "n"@, usize::MAX as nat);
    let temperature = decimal_field(tree, "temperature"@);
    let top_p = nat_field(tree, "top_p"@, usize::MAX as nat);
    if num_edits is Some && temperature is Some && top_p is Some {
        Some(
            OptEditParamsView {
                num_edits: num_edits->0,
                temperature: temperature->0,
                top_p: top_p->0,
            },
        )
    } else {
        None
    }
}

/// The parameters of an edit request that a JSON object holds.
pub open spec fn decode_edit_params(tree: JsonView) -> Option<EditParamsView> {
    let model = text_field(tree, "model"@);
    let input = text_field(tree, "input"@);
    let instruction = text_field(tree, "instruction"@);
    let opts = decode_opt_edit_params(tree);
    if model is Some && input is Some && instruction is Some && opts is Some {
        Some(
            EditParamsView {
                model: model->0,
                input: input->0,
                instruction: instruction->0,
                opts: opts->0,
            },
        )
    } else {
        None
    }
}

impl OptEditParams {
    /// The members that these parameters add to a request's object.
    pub fn members(&self) -> (members: Vec<Member>)
        ensures
            members_view(members@) == opt_edit_params_members(self@),
            members_printable(members_view(members@)),
    {
        let mut members: Vec<Member> = Vec::new();
        members.push(count_member("n", self.num_edits));
        members.push(decimal_member("temperature", self.temperature));
        members.push(count_member("top_p", self.top_p));
        assert(members_view(members@) =~= opt_edit_params_members(self@));
        members
    }

    /// Reads the tuning parameters of an edit request from a JSON object.
    pub fn from_json(json: &Json) -> (r: Option<OptEditParams>)
        ensures
            match decode_opt_edit_params(json@) {
                Some(v) => r matches Some(p) && p@ == v,
                None => r is None,
            },
    {
        let num_edits = read_count(json, "n")?;
        let temperature = read_decimal(json, "temperature")?;
        let top_p = read_count(json, "top_p")?;
        Some(OptEditParams { num_edits, temperature, top_p })
    }
}

impl EditParams {
    /// The flat JSON object of the request.
    pub fn to_json(&self) -> (json: Json)
        ensures
            json@ == JsonView::Object(edit_params_members(self@)),
            json@.printable(),
    {
        let mut members: Vec<Member> = Vec::new();
        members.push(text_member("model", &self.model));
        members.push(text_member("input", &self.input));
        members.push(text_member("instruction", &self.instruction));
        let mut opts = self.opts.members();
        let ghost opts_view = members_view(opts@);
        members.append(&mut opts);
        assert forall|i: int| 0 <= i < members@.len() implies members_view(members@)[i]
            == edit_params_members(self@)[i] && (#[trigger] members_view(
            members@,
        )[i]).1.printable() by {
            if i >= 3 {
                assert(members_view(members@)[i] == opts_view[i - 3]);
            }
        }
        assert(members_view(members@) =~= edit_params_members(self@));
        Json::object(members)
    }

    /// Reads the parameters of an edit request from a JSON object.
    pub fn from_json(json: &Json) -> (r: Option<EditParams>)
        ensures
            match decode_edit_params(json@) {
                Some(v) => r matches Some(p) && p@ == v,
                None => r is None,
            },
    {
        let model = read_text(json, "model")?;
        let input = read_text(json, "input")?;
        let instruction = read_text(json, "instruction")?;
        let opts = OptEditParams::from_json(json)?;
        Some(EditParams { model, input, instruction, opts })
    }
}

/// Who speaks in a message of a chat.
#[derive(Debug, Clone, Copy, PartialEq, Eq, Structural)]
pub enum Role {
    User,
    System,
}

/// One message of a chat.
#[derive(Debug, Clone)]
pub struct Message {
    pub role: Role,
    pub content: String,
}

pub struct MessageView {
    pub role: Role,
    pub content: Seq<char>,
}

impl View for Message {
    type V = MessageView;

    open spec fn view(&self) -> MessageView {
        MessageView { role: self.role, content: self.content@ }
    }
}

/// The name of a role on the wire.
pub open spec fn role_text(role: Role) -> Seq<char> {
    match role {
        Role::User => "User"@,
        Role::System => "System"@,
    }
}

/// The role that a name on the wire stands for.
pub open spec fn parse_role(name: Seq<char>) -> Option<Role> {
    if name == "User"@ {
        Some(Role::User)
    } else if name == "System"@ {
        Some(Role::System)
    } else {
        None
    }
}

/// The object of a message.
pub open spec fn message_json(m: MessageView) -> JsonView {
    JsonView::Object(
        seq![("role"@, JsonView::Text(role_text(m.role))), ("content"@, JsonView::Text(m.content))],
    )
}

/// The message that a JSON object holds.
pub open spec fn decode_message(tree: JsonView) -> Option<MessageView> {
    let role = match text_field(tree, "role"@) {
        Some(name) => parse_role(name),
        None => None,
    };
    let content = text_field(tree, "content"@);
    if role is Some && content is Some {
        Some(MessageView { role: role->0, content: content->0 })
    } else {
        None
    }
}

impl Role {
    /// The name of the role on the wire.
    pub fn name(&self) -> (name: &'static str)
        ensures
            name@ == role_text(*self),
    {
        match self {
            Role::User => "User",
            Role::System => "System",
        }
    }

    /// The role with the given name on the wire.
    pub fn from_name(name: &String) -> (r: Option<Role>)
        ensures
            r == parse_role(name@),
    {
        if *name == String::from_str("User") {
            Some(Role::User)
        } else if *name == String::from_str("System") {
            Some(Role::System)
        } else {
            None
        }
    }
}

impl Message {
    /// The JSON object of the message.
    pub fn to_json(&self) -> (json: Json)
        ensures
            json@ == message_json(self@),
            json@.printable(),
    {
        let mut members: Vec<Member> = Vec::new();
        let role = String::from_str(self.role.name());
        members.push(text_member("role", &role));
        members.push(text_member("content", &self.content));
        assert(members_view(members@) =~= message_json(self@)->Object_0);
        assert(members_view(members@)[0].1.printable());
        assert(members_view(members@)[1].1.printable());
        Json::object(members)
    }

    /// Reads a message from a JSON object.
    pub fn from_json(json: &Json) -> (r: Option<Message>)
        ensures
            match decode_message(json@) {
                Some(v) => r matches Some(m) && m@ == v,
                None => r is None,
            },
    {
        let name = read_text(json, "role")?;
        let role = Role::from_name(&name)?;
        let content = read_text(json, "content")?;
        Some(Message { role, content })
    }
}

/// The tuning parameters of a chat request.
#[derive(Debug, Clone)]
pub struct OptChatParams {
    pub temperature: Decimal,
    pub top_p: Decimal,
    pub n: usize,
    pub stream: bool,
    pub stop: Option<String>,
    pub max_tokens: Option<u64>,
    pub presence_penalty: Decimal,
    pub frequency_penalty: Decimal,
    pub user: String,
}

pub struct OptChatParamsView {
    pub temperature: int,
    pub top_p: int,
    pub n: nat,
    pub stream: bool,
    pub stop: Option<Seq<char>>,
    pub max_tokens: Option<nat>,
    pub presence_penalty: int,
    pub frequency_penalty: int,
    pub user: Seq<char>,
}

impl View for OptChatParams {
    type V = OptChatParamsView;

    open spec fn view(&self) -> OptChatParamsView {
        OptChatParamsView {
            temperature: self.temperature.thousandths as int,
            top_p: self.top_p.thousandths as int,
            n: self.n as nat,
            stream: self.stream,
            stop: opt_text_view(self.stop),
            max_tokens: match self.max_tokens {
                Some(n) => Some(n as nat),
                None => None,
            },
            presence_penalty: self.presence_penalty.thousandths as int,
            frequency_penalty: self.frequency_penalty.thousandths as int,
            user: self.user@,
        }
    }
}

/// The parameters of a chat request.
#[derive(Debug, Clone)]
pub struct ChatParams {
    pub model: String,
    pub messages: Vec<Message>,
    pub opt: OptChatParams,
}

pub struct ChatParamsView {
    pub model: Seq<char>,
    pub messages: Seq<MessageView>,
    pub opt: OptChatParamsView,
}

impl View for ChatParams {
    type V = ChatParamsView;

    open spec fn view(&self) -> ChatParamsView {
        ChatParamsView {
            model: self.model@,
            messages: self.messages@.map_values(|m: Message| m@),
            opt: self.opt@,
        }
    }
}

/// The members that the tuning parameters of a chat request add to the
/// request's object.
pub open spec fn opt_chat_params_members(p: OptChatParamsView) -> MembersView {
    seq![
        ("temperature"@, decimal_json(p.temperature)),
        ("top_p"@, decimal_json(p.top_p)),
        ("n"@, count_json(p.n)),
        ("stream"@, JsonView::Bool(p.stream)),
        ("stop"@, opt_text_json(p.stop)),
        ("max_tokens"@, opt_count_json(p.max_tokens)),
        ("presence_penalty"@, decimal_json(p.presence_penalty)),
        ("frequency_penalty"@, decimal_json(p.frequency_penalty)),
        ("user"@, JsonView::Text(p.user)),
    ]
}

/// The array of the messages of a chat.
pub open spec fn messages_json(messages: Seq<MessageView>) -> JsonView {
    JsonView::Array(messages.map_values(|m: MessageView| message_json(m)))
}

/// The members of the flat object of a chat request.
pub open spec fn chat_params_members(p: ChatParamsView) -> MembersView {
    seq![("model"@, JsonView::Text(p.model)), ("messages"@, messages_json(p.messages))]
        + opt_chat_params_members(p.opt)
}

/// The tuning parameters of a chat request that a JSON object holds.
pub open spec fn decode_opt_chat_params(tree: JsonView) -> Option<OptChatParamsView> {
    let temperature = decimal_field(tree, "temperature"@);
    let top_p = decimal_field(tree, "top_p"@);
    let n = nat_field(tree, "n"@, usize::MAX as nat);
    let stream = bool_field(tree, "stream"@);
    let stop = opt_text_field(tree, "stop"@);
    let max_tokens = opt_nat_field(tree, "max_tokens"@, u64::MAX as nat);
    let presence_penalty = decimal_field(tree, "presence_penalty"@);
    let frequency_penalty = decimal_field(tree, "frequency_penalty"@);
    let user = text_field(tree, "user"@);
    if temperature is Some && top_p is Some && n is Some && stream is Some && stop is Some
        && max_tokens is Some && presence_penalty is Some && frequency_penalty is Some
        && user is Some {
        Some(
            OptChatParamsView {
                temperature: temperature->0,
                top_p: top_p->0,
                n: n->0,
                stream: stream->0,
                stop: stop->0,
                max_tokens: max_tokens->0,
                presence_penalty: presence_penalty->0,
                frequency_penalty: frequency_penalty->0,
                user: user->0,
            },
        )
    } else {
        None
    }
}

/// The messages that the items of a JSON array hold; `None` where an item
/// is no message.
pub open spec fn decode_messages(items: Seq<JsonView>) -> Option<Seq<MessageView>> {
    if forall|i: int| 0 <= i < items.len() ==> (#[trigger] decode_message(items[i])) is Some {
        Some(items.map_values(|j: JsonView| decode_message(j)->0))
    } else {
        None
    }
}

/// The parameters of a chat request that a JSON object holds.
pub open spec fn decode_chat_params(tree: JsonView) -> Option<ChatParamsView> {
    let model = text_field(tree, "model"@);
    let messages = match member_of(tree, "messages"@) {
        Some(JsonView::Array(items)) => decode_messages(items),
        _ => None,
    };
    let opt = decode_opt_chat_params(tree);
    if model is Some && messages is Some && opt is Some {
        Some(ChatParamsView { model: model->0, messages: messages->0, opt: opt->0 })
    } else {
        None
    }
}

impl OptChatParams {
    /// The members that these parameters add to a request's object.
    pub fn members(&self) -> (members: Vec<Member>)
        ensures
            members_view(members@) == opt_chat_params_members(self@),
            members_printable(members_view(members@)),
    {
        let mut members: Vec<Member> = Vec::new();
        members.push(decimal_member("temperature", self.temperature));
        members.push(decimal_member("top_p", self.top_p));
        members.push(count_member("n", self.n));
        members.push(bool_member("stream", self.stream));
        members.push(opt_text_member("stop", &self.stop));
        let max_tokens = match self.max_tokens {
            Some(n) => {
                proof {
                    lemma_u64_text(n as nat);
                }
                Member::new("max_tokens", Json::Number(u64_to_text(n)))
            },
            None => Member::new("max_tokens", Json::Null),
        };
        assert(max_tokens@.1.printable());
        members.push(max_tokens);
        members.push(decimal_member("presence_penalty", self.presence_penalty));
        members.push(decimal_member("frequency_penalty", self.frequency_penalty));
        members.push(text_member("user", &self.user));
        assert(members_view(members@) =~= opt_chat_params_members(self@));
        members
    }

    /// Reads the tuning parameters of a chat request from a JSON object.
    pub fn from_json(json: &Json) -> (r: Option<OptChatParams>)
        ensures
            match decode_opt_chat_params(json@) {
                Some(v) => r matches Some(p) && p@ == v,
                None => r is None,
            },
    {
        let temperature = read_decimal(json, "temperature")?;
        let top_p = read_decimal(json, "top_p")?;
        let n = read_count(json, "n")?;
        let stream = read_bool(json, "stream")?;
        let stop = read_opt_text(json, "stop")?;
        let max_tokens = read_opt_u64(json, "max_tokens", u64::MAX)?;
        let presence_penalty = read_decimal(json, "presence_penalty")?;
        let frequency_penalty = read_decimal(json, "frequency_penalty")?;
        let user = read_text(json, "user")?;
        Some(
            OptChatParams {
                temperature,
                top_p,
                n,
                stream,
                stop,
                max_tokens,
                presence_penalty,
                frequency_penalty,
                user,
            },
        )
    }
}

impl ChatParams {
    /// The flat JSON object of the request.
    pub fn to_json(&self) -> (json: Json)
        ensures
            json@ == JsonView::Object(chat_params_members(self@)),
            json@.printable(),
    {
        let mut items: Vec<Json> = Vec::new();
        let mut i: usize = 0;
        while i < self.messages.len()
            invariant
                i <= self.messages.len(),
                items@.len() == i,
                forall|j: int|
                    0 <= j < i ==> (#[trigger] items@[j])@ == message_json(self.messages@[j]@)
                        && items@[j]@.printable(),
            decreases self.messages.len() - i,
        {
            items.push(self.messages[i].to_json());
            i = i + 1;
        }
        let array = Json::array(items);
        assert(array@->Array_0 =~= messages_json(self@.messages)->Array_0);
        assert(array@.printable()) by {
            assert forall|j: int| 0 <= j < array@->Array_0.len() implies (
            #[trigger] array@->Array_0[j]).printable() by {
                assert(array@->Array_0[j] == items@[j]@);
            }
        }
        let mut members: Vec<Member> = Vec::new();
        members.push(text_member("model", &self.model));
        members.push(Member::new("messages", array));
        let mut opt = self.opt.members();
        let ghost opt_view = members_view(opt@);
        members.append(&mut opt);
        assert forall|i: int| 0 <= i < members@.len() implies members_view(members@)[i]
            == chat_params_members(self@)[i] && (#[trigger] members_view(
            members@,
        )[i]).1.printable() by {
            if i >= 2 {
                assert(members_view(members@)[i] == opt_view[i - 2]);
            }
        }
        assert(members_view(members@) =~= chat_params_members(self@));
        Json::object(members)
    }

    /// Reads the parameters of a chat request from a JSON object.
    pub fn from_json(json: &Json) -> (r: Option<ChatParams>)
        ensures
            match decode_chat_params(json@) {
                Some(v) => r matches Some(p) && p@ == v,
                None => r is None,
            },
    {
        let model = read_text(json, "model")?;
        let items = match json.get("messages") {
            Some(found) => found.items()?,
            None => {
                return None;
            },
        };
        let ghost views = items_view(items@);
        let mut messages: Vec<Message> = Vec::new();
        let mut i: usize = 0;
        while i < items.len()
            invariant
                i <= items.len(),
                views == items_view(items@),
                member_of(json@, "messages"@) == Some(JsonView::Array(views)),
                messages@.len() == i,
                forall|j: int|
                    0 <= j < i ==> decode_message(views[j]) == Some((#[trigger] messages@[j])@),
            decreases items.len() - i,
        {
            match Message::from_json(&items[i]) {
                Some(m) => {
                    messages.push(m);
                },
                None => {
                    assert(decode_message(views[i as int]) is None);
                    return None;
                },
            }
            i = i + 1;
        }
        assert(decode_messages(views) == Some(messages@.map_values(|m: Message| m@))) by {
            assert(views.len() == messages@.len());
            assert forall|j: int| 0 <= j < views.len() implies (#[trigger] decode_message(
                views[j],
            )) == Some(messages@[j]@) by {}
            assert(decode_messages(views)->0 =~= messages@.map_values(|m: Message| m@));
        }
        let opt = OptChatParams::from_json(json)?;
        Some(ChatParams { model, messages, opt })
    }
}

/// The object of a completion request is flat: it has fifteen members,
/// the model, the prompt and every tuning parameter, and none of them is an
/// object or an array.
pub proof fn lemma_completion_params_flat(p: CompletionParams)
    ensures
        completion_params_members(p@).len() == 15,
        forall|i: int|
            0 <= i < 15 ==> !((#[trigger] completion_params_members(p@)[i]).1 is Object)
                && !(completion_params_members(p@)[i].1 is Array),
{
}

/// The round trip of an edit request: writing the parameters as their flat
/// object and reading that object gives the same parameters, field for
/// field.
pub proof fn lemma_edit_params_round_trip(p: EditParams)
    ensures
        decode_edit_params(JsonView::Object(edit_params_members(p@))) == Some(p@),
{
    let v = p@;
    let ms = edit_params_members(v);
    let tree = JsonView::Object(ms);
    reveal_strlit("model");
    reveal_strlit("input");
    reveal_strlit("instruction");
    reveal_strlit("n");
    reveal_strlit("temperature");
    reveal_strlit("top_p");
    assert(ms[0] == ("model"@, JsonView::Text(v.model)));
    assert(ms[1] == ("input"@, JsonView::Text(v.input)));
    assert(ms[2] == ("instruction"@, JsonView::Text(v.instruction)));
    assert(ms[3] == ("n"@, count_json(v.opts.num_edits)));
    assert(ms[4] == ("temperature"@, decimal_json(v.opts.temperature)));
    assert(ms[5] == ("top_p"@, count_json(v.opts.top_p)));
    assert("model"@[0] == 'm' && "input"@[0] == 'i' && "top_p"@[0] == 't');
    assert("instruction"@[0] == 'i' && "temperature"@[0] == 't');
    assert("model"@.len() == 5 && "input"@.len() == 5 && "top_p"@.len() == 5);
    assert("instruction"@.len() == 11 && "temperature"@.len() == 11 && "n"@.len() == 1);
    lemma_lookup_at(ms, 0);
    lemma_lookup_at(ms, 1);
    lemma_lookup_at(ms, 2);
    lemma_lookup_at(ms, 3);
    lemma_lookup_at(ms, 4);
    lemma_lookup_at(ms, 5);
    lemma_nat_text(v.opts.num_edits);
    lemma_nat_text(v.opts.top_p);
    lemma_decimal_text(v.opts.temperature);
    assert(decode_opt_edit_params(tree) == Some(v.opts));
}

/// The members that the default tuning parameters add to a request: each
/// documented default stands as its literal, a missing text or count as
/// `null`.
pub proof fn lemma_default_members()
    ensures
        opt_params_members(default_opt_params()) == seq![
            ("max_tokens"@, JsonView::Number(seq!['1', '6'])),
            ("temperature"@, JsonView::Number(seq!['1', '.', '0'])),
            ("suffix"@, JsonView::Null),
            ("top_p"@, JsonView::Number(seq!['1', '.', '0'])),
            ("n"@, JsonView::Number(seq!['1'])),
            ("stream"@, JsonView::Bool(false)),
            ("logprobs"@, JsonView::Null),
            ("echo"@, JsonView::Bool(false)),
            ("stop"@, JsonView::Null),
            ("presence_penalty"@, JsonView::Number(seq!['0', '.', '0'])),
            ("frequency_penalty"@, JsonView::Number(seq!['0', '.', '0'])),
            ("best_of"@, JsonView::Number(seq!['1'])),
            ("user"@, JsonView::Text(Seq::empty())),
        ],
{
    assert(nat_text(1) =~= seq!['1']);
    assert(nat_text(0) =~= seq!['0']);
    assert(nat_text(16) =~= seq!['1', '6']) by {
        assert(nat_text(16) == nat_text(1).push('6'));
    }
    assert(decimal_text(1000) =~= seq!['1', '.', '0']);
    assert(decimal_text(0) =~= seq!['0', '.', '0']);
}

} // verus!
