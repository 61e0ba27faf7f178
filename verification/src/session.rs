//! The session model that the storage decisions work on.
use crate::strmap::StrMap;
use crate::strmap;
use crate::text::same_option_text;
use crate::text;
use crate::time::Timestamp;
use vstd::prelude::*;

verus! {

/// Whether a session is the root of its tree.
#[derive(Debug, Clone, Copy, PartialEq, Eq, Structural)]
pub enum SessionKind {
    Root,
    Child,
}

/// Who a message is from.
#[derive(Debug, Clone, Copy, PartialEq, Eq, Structural)]
pub enum Role {
    System,
    User,
    Assistant,
    Tool,
}

/// How freely a session's agent may act.
#[derive(Debug, Clone, Copy, PartialEq, Eq, Structural)]
pub enum SessionPermissionMode {
    Default,
    Bypass,
    Auto,
}

/// The authority that a session holds.
#[derive(Debug, Clone, Copy, PartialEq, Eq, Structural)]
pub enum SessionAuthorityIdentity {
    Ordinary,
    /// The trusted singleton; the incarnation is a UUID as a number, nil being zero.
    Supervisor { incarnation_id: u128 },
}

// ------------------------------------------------------------ views of parts

/// The characters of an optional text.
pub open spec fn opt_text(o: Option<String>) -> Option<Seq<char>> {
    match o {
        Some(s) => Some(s@),
        None => None,
    }
}

/// The characters of optional texts.
pub open spec fn opt_texts(o: Option<Vec<String>>) -> Option<Seq<Seq<char>>> {
    match o {
        Some(v) => Some(text::texts(v@)),
        None => None,
    }
}

/// What an optional value holds.
pub open spec fn opt_view<T: View>(o: Option<T>) -> Option<T::V> {
    match o {
        Some(v) => Some(v@),
        None => None,
    }
}

/// What each item holds.
pub open spec fn views<T: View>(s: Seq<T>) -> Seq<T::V> {
    s.map_values(|x: T| x@)
}

/// What each item of an optional list holds.
pub open spec fn opt_views<T: View>(o: Option<Vec<T>>) -> Option<Seq<T::V>> {
    match o {
        Some(v) => Some(views(v@)),
        None => None,
    }
}

/// A text map with its values taken as characters.
pub open spec fn text_map(m: StrMap<String>) -> Map<Seq<char>, Seq<char>> {
    m@.map_values(|s: String| s@)
}

/// The same optional text.
pub fn clone_opt(o: &Option<String>) -> (r: Option<String>)
    ensures
        r == *o,
{
    match o {
        Some(s) => Some(s.clone()),
        None => None,
    }
}

/// The same texts in the same order.
pub fn clone_texts(v: &Vec<String>) -> (r: Vec<String>)
    ensures
        r@ == v@,
{
    let mut r: Vec<String> = Vec::new();
    let mut i: usize = 0;
    while i < v.len()
        invariant
            i <= v.len(),
            r@ == v@.take(i as int),
        decreases v.len() - i,
    {
        r.push(v[i].clone());
        assert(v@.take(i + 1) =~= v@.take(i as int).push(v@[i as int]));
        i = i + 1;
    }
    assert(r@ =~= v@);
    r
}

/// The same optional texts.
pub fn clone_opt_texts(o: &Option<Vec<String>>) -> (r: Option<Vec<String>>)
    ensures
        opt_texts(r) == opt_texts(*o),
{
    match o {
        Some(v) => Some(clone_texts(v)),
        None => None,
    }
}

/// Whether two lists of texts agree.
pub fn same_texts(a: &Vec<String>, b: &Vec<String>) -> (r: bool)
    ensures
        r == (text::texts(a@) == text::texts(b@)),
{
    if a.len() != b.len() {
        assert(text::texts(a@).len() != text::texts(b@).len());
        return false;
    }
    let mut i: usize = 0;
    while i < a.len()
        invariant
            i <= a.len(),
            a.len() == b.len(),
            forall|j: int| 0 <= j < i ==> (#[trigger] a@[j])@ == b@[j]@,
        decreases a.len() - i,
    {
        if a[i] != b[i] {
            assert(text::texts(a@)[i as int] != text::texts(b@)[i as int]);
            return false;
        }
        i = i + 1;
    }
    assert(text::texts(a@) =~= text::texts(b@));
    true
}

/// Whether two optional lists of texts agree.
pub fn same_opt_texts(a: &Option<Vec<String>>, b: &Option<Vec<String>>) -> (r: bool)
    ensures
        r == (opt_texts(*a) == opt_texts(*b)),
{
    match (a, b) {
        (Some(x), Some(y)) => same_texts(x, y),
        (None, None) => true,
        _ => false,
    }
}

/// Whether `t` is one of the texts.
pub fn has_member(v: &Vec<String>, t: &str) -> (r: bool)
    ensures
        r == text::texts(v@).to_set().contains(t@),
        r == text::texts(v@).contains(t@),
{
    broadcast use vstd::seq_lib::group_seq_properties;

    let mut i: usize = 0;
    while i < v.len()
        invariant
            i <= v.len(),
            forall|j: int| 0 <= j < i ==> (#[trigger] v@[j])@ != t@,
        decreases v.len() - i,
    {
        if crate::text::same_text(&v[i], t) {
            assert(text::texts(v@)[i as int] == t@);
            return true;
        }
        i = i + 1;
    }
    assert forall|j: int| 0 <= j < text::texts(v@).len() implies text::texts(v@)[j] != t@ by {
        assert(v@[j]@ != t@);
    }
    false
}

fn all_members(a: &Vec<String>, b: &Vec<String>) -> (r: bool)
    ensures
        r == text::texts(a@).to_set().subset_of(text::texts(b@).to_set()),
{
    broadcast use vstd::seq_lib::group_seq_properties;

    let mut i: usize = 0;
    while i < a.len()
        invariant
            i <= a.len(),
            forall|j: int| 0 <= j < i ==> text::texts(b@).to_set().contains((#[trigger] a@[j])@),
        decreases a.len() - i,
    {
        if !has_member(b, &a[i]) {
            proof {
                assert(text::texts(a@)[i as int] == a@[i as int]@);
                assert(text::texts(a@).to_set().contains(a@[i as int]@));
            }
            return false;
        }
        i = i + 1;
    }
    assert forall|t: Seq<char>| text::texts(a@).to_set().contains(t) implies text::texts(b@).to_set().contains(t) by {
        let j = choose|j: int| 0 <= j < text::texts(a@).len() && text::texts(a@)[j] == t;
        assert(a@[j]@ == t);
    }
    true
}

/// Whether two lists hold the same set of texts.
pub fn same_set(a: &Vec<String>, b: &Vec<String>) -> (r: bool)
    ensures
        r == (text::texts(a@).to_set() == text::texts(b@).to_set()),
{
    let r = all_members(a, b) && all_members(b, a);
    assert(r == (text::texts(a@).to_set() =~= text::texts(b@).to_set()));
    r
}

/// A text map with the same keys and values.
pub fn clone_text_map(m: &StrMap<String>) -> (r: StrMap<String>)
    ensures
        text_map(r) == text_map(*m),
{
    let n: usize = m.len();
    let mut r: StrMap<String> = StrMap::new();
    let mut i: usize = 0;
    while i < n
        invariant
            i <= n,
            n == m.pairs().len(),
            crate::strmap::describes(m.pairs(), m@),
            forall|k: Seq<char>| #[trigger] r@.contains_key(k) <==> strmap::has_key(m.pairs().take(i as int), k),
            forall|k: Seq<char>| #[trigger] r@.contains_key(k) ==> m@.contains_key(k) && r@[k] == m@[k],
        decreases n - i,
    {
        let ghost before = r@;
        let ghost p = m.pairs();
        let key = m.key_at(i).clone();
        let value = m.value_at(i).clone();
        r.insert(key, value);
        proof {
            assert forall|k: Seq<char>| #[trigger] r@.contains_key(k) <==> strmap::has_key(p.take(i + 1), k) by {
                if before.contains_key(k) {
                    let j = crate::strmap::key_index(p.take(i as int), k);
                    assert(p.take(i as int)[j].0@ == k);
                    assert(p.take(i + 1)[j].0@ == k);
                }
                if k == key@ {
                    assert(p.take(i + 1)[i as int].0@ == k);
                }
                if strmap::has_key(p.take(i + 1), k) {
                    let j = crate::strmap::key_index(p.take(i + 1), k);
                    assert(p.take(i + 1)[j].0@ == k);
                    if j < i {
                        assert(p.take(i as int)[j].0@ == k);
                    }
                }
            }
            assert(p[i as int].0@ == key@);
        }
        i = i + 1;
    }
    proof {
        assert(m.pairs().take(n as int) =~= m.pairs());
        assert forall|k: Seq<char>| m@.contains_key(k) implies r@.contains_key(k) by {
            assert(strmap::has_key(m.pairs(), k));
        }
        assert(text_map(r) =~= text_map(*m));
    }
    r
}

fn text_submap(a: &StrMap<String>, b: &StrMap<String>) -> (r: bool)
    ensures
        r == (forall|k: Seq<char>|
            #[trigger] a@.contains_key(k) ==> b@.contains_key(k) && a@[k]@ == b@[k]@),
{
    let n: usize = a.len();
    let mut i: usize = 0;
    while i < n
        invariant
            i <= n,
            n == a.pairs().len(),
            crate::strmap::describes(a.pairs(), a@),
            forall|j: int|
                0 <= j < i ==> b@.contains_key((#[trigger] a.pairs()[j]).0@) && a.pairs()[j].1@
                    == b@[a.pairs()[j].0@]@,
        decreases n - i,
    {
        let found = match b.get(a.key_at(i)) {
            Some(v) => *v == *a.value_at(i),
            None => false,
        };
        if !found {
            assert(a@.contains_key(a.pairs()[i as int].0@));
            return false;
        }
        i = i + 1;
    }
    assert forall|k: Seq<char>| #[trigger] a@.contains_key(k) implies b@.contains_key(k) && a@[k]@ == b@[k]@ by {
        let j = crate::strmap::key_index(a.pairs(), k);
        assert(a.pairs()[j].0@ == k);
    }
    true
}

/// Whether two text maps hold the same.
pub fn same_text_map(a: &StrMap<String>, b: &StrMap<String>) -> (r: bool)
    ensures
        r == (text_map(*a) == text_map(*b)),
{
    let r = text_submap(a, b) && text_submap(b, a);
    proof {
        if r {
            assert(text_map(*a) =~= text_map(*b));
        }
        if text_map(*a) == text_map(*b) {
            assert forall|k: Seq<char>| #[trigger] a@.contains_key(k) implies b@.contains_key(k) && a@[k]@ == b@[k]@ by {
                assert(text_map(*a).contains_key(k));
                assert(text_map(*b).contains_key(k));
                assert(text_map(*a)[k] == text_map(*b)[k]);
            }
            assert forall|k: Seq<char>| #[trigger] b@.contains_key(k) implies a@.contains_key(k) && b@[k]@ == a@[k]@ by {
                assert(text_map(*b).contains_key(k));
                assert(text_map(*a).contains_key(k));
                assert(text_map(*a)[k] == text_map(*b)[k]);
            }
        }
    }
    r
}

// ------------------------------------------------------------------ messages

/// Text recognised in one image.
pub struct ImageOcrResult {
    pub image_url: String,
    /// Everything else the result carries, as canonical JSON.
    pub document: String,
}

/// What a [`ImageOcrResult`] holds.
#[verifier::ext_equal]
pub struct ImageOcrResultView {
    pub image_url: Seq<char>,
    pub document: Seq<char>,
}

impl View for ImageOcrResult {
    type V = ImageOcrResultView;

    open spec fn view(&self) -> ImageOcrResultView {
        ImageOcrResultView {
            image_url: self.image_url@,
            document: self.document@,
        }
    }
}

impl ImageOcrResult {
    /// A second value that holds the same.
    pub fn duplicate(&self) -> (r: ImageOcrResult)
        ensures
            r@ == self@,
    {
        let r = ImageOcrResult {
            image_url: self.image_url.clone(),
            document: self.document.clone(),
        };
        assert(r@ =~= self@);
        r
    }

    /// Whether both hold the same.
    pub fn same(&self, other: &ImageOcrResult) -> (r: bool)
        ensures
            r == (self@ == other@),
    {
        if !(self.image_url == other.image_url) {
            assert(self@.image_url != other@.image_url);
            return false;
        }
        if !(self.document == other.document) {
            assert(self@.document != other@.document);
            return false;
        }
        assert(self@ =~= other@);
        true
    }
}

/// The same items in the same order.
pub fn clone_ocr(v: &Vec<ImageOcrResult>) -> (r: Vec<ImageOcrResult>)
    ensures
        views(r@) == views(v@),
{
    let mut r: Vec<ImageOcrResult> = Vec::new();
    let mut i: usize = 0;
    while i < v.len()
        invariant
            i <= v.len(),
            r.len() == i,
            forall|j: int| 0 <= j < i ==> (#[trigger] r@[j])@ == v@[j]@,
        decreases v.len() - i,
    {
        r.push(v[i].duplicate());
        i = i + 1;
    }
    assert(views(r@) =~= views(v@));
    r
}

/// Whether both hold the same items in the same order.
pub fn same_ocr(a: &Vec<ImageOcrResult>, b: &Vec<ImageOcrResult>) -> (r: bool)
    ensures
        r == (views(a@) == views(b@)),
{
    if a.len() != b.len() {
        assert(views(a@).len() != views(b@).len());
        return false;
    }
    let mut i: usize = 0;
    while i < a.len()
        invariant
            i <= a.len(),
            a.len() == b.len(),
            forall|j: int| 0 <= j < i ==> (#[trigger] a@[j])@ == b@[j]@,
        decreases a.len() - i,
    {
        if !a[i].same(&b[i]) {
            assert(views(a@)[i as int] != views(b@)[i as int]);
            return false;
        }
        i = i + 1;
    }
    assert(views(a@) =~= views(b@));
    true
}

/// One part of a message's content.
pub enum MessagePart {
    /// An image; `document` holds everything but its URL, as canonical JSON.
    ImageUrl { url: String, document: String },
    /// Any other part, as canonical JSON.
    Other { document: String },
}

/// What a [`MessagePart`] holds.
#[verifier::ext_equal]
pub enum MessagePartView {
    ImageUrl { url: Seq<char>, document: Seq<char> },
    Other { document: Seq<char> },
}

impl View for MessagePart {
    type V = MessagePartView;

    open spec fn view(&self) -> MessagePartView {
        match *self {
            MessagePart::ImageUrl { url, document } => MessagePartView::ImageUrl {
                url: url@,
                document: document@,
            },
            MessagePart::Other { document } => MessagePartView::Other { document: document@ },
        }
    }
}

impl MessagePart {
    /// A second value that holds the same.
    pub fn duplicate(&self) -> (r: MessagePart)
        ensures
            r@ == self@,
    {
        match self {
            MessagePart::ImageUrl { url, document } => MessagePart::ImageUrl {
                url: url.clone(),
                document: document.clone(),
            },
            MessagePart::Other { document } => MessagePart::Other { document: document.clone() },
        }
    }

    /// Whether both hold the same.
    pub fn same(&self, other: &MessagePart) -> (r: bool)
        ensures
            r == (self@ == other@),
    {
        match (self, other) {
            (
                MessagePart::ImageUrl { url: u, document: d },
                MessagePart::ImageUrl { url: v, document: e },
            ) => *u == *v && *d == *e,
            (MessagePart::Other { document: d }, MessagePart::Other { document: e }) => *d == *e,
            _ => false,
        }
    }
}


/// The same items in the same order.
pub fn clone_parts(v: &Vec<MessagePart>) -> (r: Vec<MessagePart>)
    ensures
        views(r@) == views(v@),
{
    let mut r: Vec<MessagePart> = Vec::new();
    let mut i: usize = 0;
    while i < v.len()
        invariant
            i <= v.len(),
            r.len() == i,
            forall|j: int| 0 <= j < i ==> (#[trigger] r@[j])@ == v@[j]@,
        decreases v.len() - i,
    {
        r.push(v[i].duplicate());
        i = i + 1;
    }
    assert(views(r@) =~= views(v@));
    r
}

/// Whether both hold the same items in the same order.
pub fn same_parts(a: &Vec<MessagePart>, b: &Vec<MessagePart>) -> (r: bool)
    ensures
        r == (views(a@) == views(b@)),
{
    if a.len() != b.len() {
        assert(views(a@).len() != views(b@).len());
        return false;
    }
    let mut i: usize = 0;
    while i < a.len()
        invariant
            i <= a.len(),
            a.len() == b.len(),
            forall|j: int| 0 <= j < i ==> (#[trigger] a@[j])@ == b@[j]@,
        decreases a.len() - i,
    {
        if !a[i].same(&b[i]) {
            assert(views(a@)[i as int] != views(b@)[i as int]);
            return false;
        }
        i = i + 1;
    }
    assert(views(a@) =~= views(b@));
    true
}

/// One message of a conversation.
pub struct Message {
    pub role: Role,
    pub content_parts: Option<Vec<MessagePart>>,
    pub image_ocr: Option<Vec<ImageOcrResult>>,
    pub compression_level: u32,
    /// Whether the message is a pending system-resume request.
    pub system_resume: bool,
    /// Everything else the message carries, as canonical JSON.
    pub document: String,
}

/// What a [`Message`] holds.
#[verifier::ext_equal]
pub struct MessageView {
    pub role: Role,
    pub content_parts: Option<Seq<MessagePartView>>,
    pub image_ocr: Option<Seq<ImageOcrResultView>>,
    pub compression_level: u32,
    pub system_resume: bool,
    pub document: Seq<char>,
}

impl View for Message {
    type V = MessageView;

    open spec fn view(&self) -> MessageView {
        MessageView {
            role: self.role,
            content_parts: opt_views(self.content_parts),
            image_ocr: opt_views(self.image_ocr),
            compression_level: self.compression_level,
            system_resume: self.system_resume,
            document: self.document@,
        }
    }
}

impl Message {
    /// A second value that holds the same.
    pub fn duplicate(&self) -> (r: Message)
        ensures
            r@ == self@,
    {
        let r = Message {
            role: self.role,
            content_parts: match &self.content_parts {
                Some(v) => Some(clone_parts(v)),
                None => None,
            },
            image_ocr: match &self.image_ocr {
                Some(v) => Some(clone_ocr(v)),
                None => None,
            },
            compression_level: self.compression_level,
            system_resume: self.system_resume,
            document: self.document.clone(),
        };
        assert(r@ =~= self@);
        r
    }

    /// Whether both hold the same.
    pub fn same(&self, other: &Message) -> (r: bool)
        ensures
            r == (self@ == other@),
    {
        if !(self.role == other.role) {
            assert(self@.role != other@.role);
            return false;
        }
        if !(match (&self.content_parts, &other.content_parts) {
            (Some(x), Some(y)) => same_parts(x, y),
            (None, None) => true,
            _ => false,
        }) {
            assert(self@.content_parts != other@.content_parts);
            return false;
        }
        if !(match (&self.image_ocr, &other.image_ocr) {
            (Some(x), Some(y)) => same_ocr(x, y),
            (None, None) => true,
            _ => false,
        }) {
            assert(self@.image_ocr != other@.image_ocr);
            return false;
        }
        if !(self.compression_level == other.compression_level) {
            assert(self@.compression_level != other@.compression_level);
            return false;
        }
        if !(self.system_resume == other.system_resume) {
            assert(self@.system_resume != other@.system_resume);
            return false;
        }
        if !(self.document == other.document) {
            assert(self@.document != other@.document);
            return false;
        }
        assert(self@ =~= other@);
        true
    }
}

/// The same items in the same order.
pub fn clone_messages(v: &Vec<Message>) -> (r: Vec<Message>)
    ensures
        views(r@) == views(v@),
{
    let mut r: Vec<Message> = Vec::new();
    let mut i: usize = 0;
    while i < v.len()
        invariant
            i <= v.len(),
            r.len() == i,
            forall|j: int| 0 <= j < i ==> (#[trigger] r@[j])@ == v@[j]@,
        decreases v.len() - i,
    {
        r.push(v[i].duplicate());
        i = i + 1;
    }
    assert(views(r@) =~= views(v@));
    r
}

/// Whether both hold the same items in the same order.
pub fn same_messages(a: &Vec<Message>, b: &Vec<Message>) -> (r: bool)
    ensures
        r == (views(a@) == views(b@)),
{
    if a.len() != b.len() {
        assert(views(a@).len() != views(b@).len());
        return false;
    }
    let mut i: usize = 0;
    while i < a.len()
        invariant
            i <= a.len(),
            a.len() == b.len(),
            forall|j: int| 0 <= j < i ==> (#[trigger] a@[j])@ == b@[j]@,
        decreases a.len() - i,
    {
        if !a[i].same(&b[i]) {
            assert(views(a@)[i as int] != views(b@)[i as int]);
            return false;
        }
        i = i + 1;
    }
    assert(views(a@) =~= views(b@));
    true
}

/// Run-time state of a session's agent.
pub struct AgentRuntimeState {
    /// The effective permission mode.
    pub permission_mode: SessionPermissionMode,
    /// Active plan-mode state, as canonical JSON.
    pub plan_mode: Option<String>,
    /// Everything else the state carries, as canonical JSON; empty for a fresh state.
    pub document: String,
}

/// What a [`AgentRuntimeState`] holds.
#[verifier::ext_equal]
pub struct AgentRuntimeStateView {
    pub permission_mode: SessionPermissionMode,
    pub plan_mode: Option<Seq<char>>,
    pub document: Seq<char>,
}

impl View for AgentRuntimeState {
    type V = AgentRuntimeStateView;

    open spec fn view(&self) -> AgentRuntimeStateView {
        AgentRuntimeStateView {
            permission_mode: self.permission_mode,
            plan_mode: opt_text(self.plan_mode),
            document: self.document@,
        }
    }
}

impl AgentRuntimeState {
    /// A second value that holds the same.
    pub fn duplicate(&self) -> (r: AgentRuntimeState)
        ensures
            r@ == self@,
    {
        let r = AgentRuntimeState {
            permission_mode: self.permission_mode,
            plan_mode: clone_opt(&self.plan_mode),
            document: self.document.clone(),
        };
        assert(r@ =~= self@);
        r
    }

    /// Whether both hold the same.
    pub fn same(&self, other: &AgentRuntimeState) -> (r: bool)
        ensures
            r == (self@ == other@),
    {
        if !(self.permission_mode == other.permission_mode) {
            assert(self@.permission_mode != other@.permission_mode);
            return false;
        }
        if !(same_option_text(&self.plan_mode, &other.plan_mode)) {
            assert(self@.plan_mode != other@.plan_mode);
            return false;
        }
        if !(self.document == other.document) {
            assert(self@.document != other@.document);
            return false;
        }
        assert(self@ =~= other@);
        true
    }
}

/// The model-context ledger of a session.
pub struct ModelContextState {
    pub state_revision: u64,
    /// The ledger, as canonical JSON.
    pub document: String,
}

/// What a [`ModelContextState`] holds.
#[verifier::ext_equal]
pub struct ModelContextStateView {
    pub state_revision: u64,
    pub document: Seq<char>,
}

impl View for ModelContextState {
    type V = ModelContextStateView;

    open spec fn view(&self) -> ModelContextStateView {
        ModelContextStateView {
            state_revision: self.state_revision,
            document: self.document@,
        }
    }
}

impl ModelContextState {
    /// A second value that holds the same.
    pub fn duplicate(&self) -> (r: ModelContextState)
        ensures
            r@ == self@,
    {
        let r = ModelContextState {
            state_revision: self.state_revision,
            document: self.document.clone(),
        };
        assert(r@ =~= self@);
        r
    }

    /// Whether both hold the same.
    pub fn same(&self, other: &ModelContextState) -> (r: bool)
        ensures
            r == (self@ == other@),
    {
        if !(self.state_revision == other.state_revision) {
            assert(self@.state_revision != other@.state_revision);
            return false;
        }
        if !(self.document == other.document) {
            assert(self@.document != other@.document);
            return false;
        }
        assert(self@ =~= other@);
        true
    }
}

/// Typed runtime metadata of a session.
pub struct SessionRuntimeMetadata {
    pub subagent_type: Option<String>,
    pub last_run_status: Option<String>,
    pub last_run_error: Option<String>,
    /// Queued messages, each as canonical JSON.
    pub pending_injected_messages: Option<Vec<String>>,
    pub task_list_version: Option<String>,
    pub todo_list_version: Option<String>,
    /// Admission record of the session inbox, as canonical JSON.
    pub session_inbox_admission: Option<String>,
    pub workspace_path: Option<String>,
    pub project_id: Option<String>,
    /// Everything else, as canonical JSON; empty where there is nothing.
    pub document: String,
}

/// What a [`SessionRuntimeMetadata`] holds.
#[verifier::ext_equal]
pub struct SessionRuntimeMetadataView {
    pub subagent_type: Option<Seq<char>>,
    pub last_run_status: Option<Seq<char>>,
    pub last_run_error: Option<Seq<char>>,
    pub pending_injected_messages: Option<Seq<Seq<char>>>,
    pub task_list_version: Option<Seq<char>>,
    pub todo_list_version: Option<Seq<char>>,
    pub session_inbox_admission: Option<Seq<char>>,
    pub workspace_path: Option<Seq<char>>,
    pub project_id: Option<Seq<char>>,
    pub document: Seq<char>,
}

impl View for SessionRuntimeMetadata {
    type V = SessionRuntimeMetadataView;

    open spec fn view(&self) -> SessionRuntimeMetadataView {
        SessionRuntimeMetadataView {
            subagent_type: opt_text(self.subagent_type),
            last_run_status: opt_text(self.last_run_status),
            last_run_error: opt_text(self.last_run_error),
            pending_injected_messages: opt_texts(self.pending_injected_messages),
            task_list_version: opt_text(self.task_list_version),
            todo_list_version: opt_text(self.todo_list_version),
            session_inbox_admission: opt_text(self.session_inbox_admission),
            workspace_path: opt_text(self.workspace_path),
            project_id: opt_text(self.project_id),
            document: self.document@,
        }
    }
}

impl SessionRuntimeMetadata {
    /// A second value that holds the same.
    pub fn duplicate(&self) -> (r: SessionRuntimeMetadata)
        ensures
            r@ == self@,
    {
        let r = SessionRuntimeMetadata {
            subagent_type: clone_opt(&self.subagent_type),
            last_run_status: clone_opt(&self.last_run_status),
            last_run_error: clone_opt(&self.last_run_error),
            pending_injected_messages: clone_opt_texts(&self.pending_injected_messages),
            task_list_version: clone_opt(&self.task_list_version),
            todo_list_version: clone_opt(&self.todo_list_version),
            session_inbox_admission: clone_opt(&self.session_inbox_admission),
            workspace_path: clone_opt(&self.workspace_path),
            project_id: clone_opt(&self.project_id),
            document: self.document.clone(),
        };
        assert(r@ =~= self@);
        r
    }

    /// Whether both hold the same.
    pub fn same(&self, other: &SessionRuntimeMetadata) -> (r: bool)
        ensures
            r == (self@ == other@),
    {
        if !(same_option_text(&self.subagent_type, &other.subagent_type)) {
            assert(self@.subagent_type != other@.subagent_type);
            return false;
        }
        if !(same_option_text(&self.last_run_status, &other.last_run_status)) {
            assert(self@.last_run_status != other@.last_run_status);
            return false;
        }
        if !(same_option_text(&self.last_run_error, &other.last_run_error)) {
            assert(self@.last_run_error != other@.last_run_error);
            return false;
        }
        if !(same_opt_texts(&self.pending_injected_messages, &other.pending_injected_messages)) {
            assert(self@.pending_injected_messages != other@.pending_injected_messages);
            return false;
        }
        if !(same_option_text(&self.task_list_version, &other.task_list_version)) {
            assert(self@.task_list_version != other@.task_list_version);
            return false;
        }
        if !(same_option_text(&self.todo_list_version, &other.todo_list_version)) {
            assert(self@.todo_list_version != other@.todo_list_version);
            return false;
        }
        if !(same_option_text(&self.session_inbox_admission, &other.session_inbox_admission)) {
            assert(self@.session_inbox_admission != other@.session_inbox_admission);
            return false;
        }
        if !(same_option_text(&self.workspace_path, &other.workspace_path)) {
            assert(self@.workspace_path != other@.workspace_path);
            return false;
        }
        if !(same_option_text(&self.project_id, &other.project_id)) {
            assert(self@.project_id != other@.project_id);
            return false;
        }
        if !(self.document == other.document) {
            assert(self@.document != other@.document);
            return false;
        }
        assert(self@ =~= other@);
        true
    }
}

/// A Supervisor's link to one target session, or its tombstone.
pub struct ManagedLink {
    pub revision: u64,
    pub enabled: bool,
    pub target_created_at: Timestamp,
    pub target_project_id: String,
    pub target_metadata_version: u64,
}

/// What a [`ManagedLink`] holds.
#[verifier::ext_equal]
pub struct ManagedLinkView {
    pub revision: u64,
    pub enabled: bool,
    pub target_created_at: Timestamp,
    pub target_project_id: Seq<char>,
    pub target_metadata_version: u64,
}

impl View for ManagedLink {
    type V = ManagedLinkView;

    open spec fn view(&self) -> ManagedLinkView {
        ManagedLinkView {
            revision: self.revision,
            enabled: self.enabled,
            target_created_at: self.target_created_at,
            target_project_id: self.target_project_id@,
            target_metadata_version: self.target_metadata_version,
        }
    }
}

impl ManagedLink {
    /// A second value that holds the same.
    pub fn duplicate(&self) -> (r: ManagedLink)
        ensures
            r@ == self@,
    {
        let r = ManagedLink {
            revision: self.revision,
            enabled: self.enabled,
            target_created_at: self.target_created_at,
            target_project_id: self.target_project_id.clone(),
            target_metadata_version: self.target_metadata_version,
        };
        assert(r@ =~= self@);
        r
    }

    /// Whether both hold the same.
    pub fn same(&self, other: &ManagedLink) -> (r: bool)
        ensures
            r == (self@ == other@),
    {
        if !(self.revision == other.revision) {
            assert(self@.revision != other@.revision);
            return false;
        }
        if !(self.enabled == other.enabled) {
            assert(self@.enabled != other@.enabled);
            return false;
        }
        if !(self.target_created_at == other.target_created_at) {
            assert(self@.target_created_at != other@.target_created_at);
            return false;
        }
        if !(self.target_project_id == other.target_project_id) {
            assert(self@.target_project_id != other@.target_project_id);
            return false;
        }
        if !(self.target_metadata_version == other.target_metadata_version) {
            assert(self@.target_metadata_version != other@.target_metadata_version);
            return false;
        }
        assert(self@ =~= other@);
        true
    }
}

/// Links by target id, each taken as what it holds.
pub open spec fn link_map(m: StrMap<ManagedLink>) -> Map<Seq<char>, ManagedLinkView> {
    m@.map_values(|l: ManagedLink| l@)
}

/// The same links under the same ids.
pub fn clone_links(m: &StrMap<ManagedLink>) -> (r: StrMap<ManagedLink>)
    ensures
        link_map(r) == link_map(*m),
{
    let n: usize = m.len();
    let mut r: StrMap<ManagedLink> = StrMap::new();
    let mut i: usize = 0;
    while i < n
        invariant
            i <= n,
            n == m.pairs().len(),
            crate::strmap::describes(m.pairs(), m@),
            forall|k: Seq<char>| #[trigger] r@.contains_key(k) <==> strmap::has_key(m.pairs().take(i as int), k),
            forall|k: Seq<char>| #[trigger] r@.contains_key(k) ==> m@.contains_key(k) && r@[k]@ == m@[k]@,
        decreases n - i,
    {
        let ghost before = r@;
        let ghost p = m.pairs();
        let key = m.key_at(i).clone();
        let value = m.value_at(i).duplicate();
        r.insert(key, value);
        proof {
            assert forall|k: Seq<char>| #[trigger] r@.contains_key(k) <==> strmap::has_key(p.take(i + 1), k) by {
                if before.contains_key(k) {
                    let j = crate::strmap::key_index(p.take(i as int), k);
                    assert(p.take(i as int)[j].0@ == k);
                    assert(p.take(i + 1)[j].0@ == k);
                }
                if k == key@ {
                    assert(p.take(i + 1)[i as int].0@ == k);
                }
                if strmap::has_key(p.take(i + 1), k) {
                    let j = crate::strmap::key_index(p.take(i + 1), k);
                    assert(p.take(i + 1)[j].0@ == k);
                    if j < i {
                        assert(p.take(i as int)[j].0@ == k);
                    }
                }
            }
            assert(p[i as int].0@ == key@);
        }
        i = i + 1;
    }
    proof {
        assert(m.pairs().take(n as int) =~= m.pairs());
        assert forall|k: Seq<char>| m@.contains_key(k) implies r@.contains_key(k) by {
            assert(strmap::has_key(m.pairs(), k));
        }
        assert(link_map(r) =~= link_map(*m));
    }
    r
}

fn sublinks(a: &StrMap<ManagedLink>, b: &StrMap<ManagedLink>) -> (r: bool)
    ensures
        r == (forall|k: Seq<char>|
            #[trigger] a@.contains_key(k) ==> b@.contains_key(k) && a@[k]@ == b@[k]@),
{
    let n: usize = a.len();
    let mut i: usize = 0;
    while i < n
        invariant
            i <= n,
            n == a.pairs().len(),
            crate::strmap::describes(a.pairs(), a@),
            forall|j: int|
                0 <= j < i ==> b@.contains_key((#[trigger] a.pairs()[j]).0@) && a.pairs()[j].1@
                    == b@[a.pairs()[j].0@]@,
        decreases n - i,
    {
        let found = match b.get(a.key_at(i)) {
            Some(v) => v.same(a.value_at(i)),
            None => false,
        };
        if !found {
            assert(a@.contains_key(a.pairs()[i as int].0@));
            return false;
        }
        i = i + 1;
    }
    assert forall|k: Seq<char>| #[trigger] a@.contains_key(k) implies b@.contains_key(k) && a@[k]@ == b@[k]@ by {
        let j = crate::strmap::key_index(a.pairs(), k);
        assert(a.pairs()[j].0@ == k);
    }
    true
}

/// Whether both hold the same links.
pub fn same_links(a: &StrMap<ManagedLink>, b: &StrMap<ManagedLink>) -> (r: bool)
    ensures
        r == (link_map(*a) == link_map(*b)),
{
    let r = sublinks(a, b) && sublinks(b, a);
    proof {
        if r {
            assert(link_map(*a) =~= link_map(*b));
        }
        if link_map(*a) == link_map(*b) {
            assert forall|k: Seq<char>| #[trigger] a@.contains_key(k) implies b@.contains_key(k) && a@[k]@ == b@[k]@ by {
                assert(link_map(*a).contains_key(k));
                assert(link_map(*b).contains_key(k));
                assert(link_map(*a)[k] == link_map(*b)[k]);
            }
            assert forall|k: Seq<char>| #[trigger] b@.contains_key(k) implies a@.contains_key(k) && b@[k]@ == a@[k]@ by {
                assert(link_map(*b).contains_key(k));
                assert(link_map(*a).contains_key(k));
                assert(link_map(*a)[k] == link_map(*b)[k]);
            }
        }
    }
    r
}


/// What a Supervisor manages.
pub struct SupervisorManagementState {
    pub schema_version: u32,
    pub incarnation_id: u128,
    pub revision: u64,
    /// The Project ids in scope.
    pub allowed_projects: Vec<String>,
    /// Links and tombstones by target session id.
    pub links: StrMap<ManagedLink>,
}

/// What a [`SupervisorManagementState`] holds.
#[verifier::ext_equal]
pub struct SupervisorManagementStateView {
    pub schema_version: u32,
    pub incarnation_id: u128,
    pub revision: u64,
    pub allowed_projects: Set<Seq<char>>,
    pub links: Map<Seq<char>, ManagedLinkView>,
}

impl View for SupervisorManagementState {
    type V = SupervisorManagementStateView;

    open spec fn view(&self) -> SupervisorManagementStateView {
        SupervisorManagementStateView {
            schema_version: self.schema_version,
            incarnation_id: self.incarnation_id,
            revision: self.revision,
            allowed_projects: text::texts(self.allowed_projects@).to_set(),
            links: link_map(self.links),
        }
    }
}

impl SupervisorManagementState {
    /// A second value that holds the same.
    pub fn duplicate(&self) -> (r: SupervisorManagementState)
        ensures
            r@ == self@,
    {
        let r = SupervisorManagementState {
            schema_version: self.schema_version,
            incarnation_id: self.incarnation_id,
            revision: self.revision,
            allowed_projects: clone_texts(&self.allowed_projects),
            links: clone_links(&self.links),
        };
        assert(r@ =~= self@);
        r
    }

    /// Whether both hold the same.
    pub fn same(&self, other: &SupervisorManagementState) -> (r: bool)
        ensures
            r == (self@ == other@),
    {
        if !(self.schema_version == other.schema_version) {
            assert(self@.schema_version != other@.schema_version);
            return false;
        }
        if !(self.incarnation_id == other.incarnation_id) {
            assert(self@.incarnation_id != other@.incarnation_id);
            return false;
        }
        if !(self.revision == other.revision) {
            assert(self@.revision != other@.revision);
            return false;
        }
        if !(same_set(&self.allowed_projects, &other.allowed_projects)) {
            assert(self@.allowed_projects != other@.allowed_projects);
            return false;
        }
        if !(same_links(&self.links, &other.links)) {
            assert(self@.links != other@.links);
            return false;
        }
        assert(self@ =~= other@);
        true
    }
}

/// A session: its identity, control plane and message history.
pub struct Session {
    pub id: String,
    pub kind: SessionKind,
    pub parent_session_id: Option<String>,
    pub root_session_id: String,
    pub spawn_depth: u32,
    pub title: String,
    pub title_version: u64,
    pub title_generated: bool,
    pub pinned: bool,
    /// Revision of the authoritative metadata group.
    pub metadata_version: u64,
    pub created_at: Timestamp,
    pub updated_at: Timestamp,
    pub model: String,
    pub model_ref: Option<String>,
    pub reasoning_effort: Option<String>,
    pub pending_question: Option<String>,
    pub token_budget: Option<String>,
    pub resolved_token_budget: Option<String>,
    pub token_usage: Option<String>,
    pub conversation_summary: Option<String>,
    pub force_manual_compression: Option<String>,
    pub prompt_snapshot: Option<String>,
    /// The Task list, as canonical JSON.
    pub task_list: Option<String>,
    /// Native transcript groups, as canonical JSON; empty where there are none.
    pub provider_transcript: String,
    pub agent_runtime_state: Option<AgentRuntimeState>,
    pub model_context_state: Option<ModelContextState>,
    pub messages: Vec<Message>,
    pub metadata: StrMap<String>,
    pub runtime_metadata: Option<SessionRuntimeMetadata>,
    pub authority_identity: SessionAuthorityIdentity,
    pub supervisor_management: Option<SupervisorManagementState>,
    /// Everything else the session carries, as canonical JSON.
    pub document: String,
}

/// What a [`Session`] holds.
#[verifier::ext_equal]
pub struct SessionView {
    pub id: Seq<char>,
    pub kind: SessionKind,
    pub parent_session_id: Option<Seq<char>>,
    pub root_session_id: Seq<char>,
    pub spawn_depth: u32,
    pub title: Seq<char>,
    pub title_version: u64,
    pub title_generated: bool,
    pub pinned: bool,
    pub metadata_version: u64,
    pub created_at: Timestamp,
    pub updated_at: Timestamp,
    pub model: Seq<char>,
    pub model_ref: Option<Seq<char>>,
    pub reasoning_effort: Option<Seq<char>>,
    pub pending_question: Option<Seq<char>>,
    pub token_budget: Option<Seq<char>>,
    pub resolved_token_budget: Option<Seq<char>>,
    pub token_usage: Option<Seq<char>>,
    pub conversation_summary: Option<Seq<char>>,
    pub force_manual_compression: Option<Seq<char>>,
    pub prompt_snapshot: Option<Seq<char>>,
    pub task_list: Option<Seq<char>>,
    pub provider_transcript: Seq<char>,
    pub agent_runtime_state: Option<AgentRuntimeStateView>,
    pub model_context_state: Option<ModelContextStateView>,
    pub messages: Seq<MessageView>,
    pub metadata: Map<Seq<char>, Seq<char>>,
    pub runtime_metadata: Option<SessionRuntimeMetadataView>,
    pub authority_identity: SessionAuthorityIdentity,
    pub supervisor_management: Option<SupervisorManagementStateView>,
    pub document: Seq<char>,
}

impl View for Session {
    type V = SessionView;

    open spec fn view(&self) -> SessionView {
        SessionView {
            id: self.id@,
            kind: self.kind,
            parent_session_id: opt_text(self.parent_session_id),
            root_session_id: self.root_session_id@,
            spawn_depth: self.spawn_depth,
            title: self.title@,
            title_version: self.title_version,
            title_generated: self.title_generated,
            pinned: self.pinned,
            metadata_version: self.metadata_version,
            created_at: self.created_at,
            updated_at: self.updated_at,
            model: self.model@,
            model_ref: opt_text(self.model_ref),
            reasoning_effort: opt_text(self.reasoning_effort),
            pending_question: opt_text(self.pending_question),
            token_budget: opt_text(self.token_budget),
            resolved_token_budget: opt_text(self.resolved_token_budget),
            token_usage: opt_text(self.token_usage),
            conversation_summary: opt_text(self.conversation_summary),
            force_manual_compression: opt_text(self.force_manual_compression),
            prompt_snapshot: opt_text(self.prompt_snapshot),
            task_list: opt_text(self.task_list),
            provider_transcript: self.provider_transcript@,
            agent_runtime_state: opt_view(self.agent_runtime_state),
            model_context_state: opt_view(self.model_context_state),
            messages: views(self.messages@),
            metadata: text_map(self.metadata),
            runtime_metadata: opt_view(self.runtime_metadata),
            authority_identity: self.authority_identity,
            supervisor_management: opt_view(self.supervisor_management),
            document: self.document@,
        }
    }
}

impl Session {
    /// A second value that holds the same.
    pub fn duplicate(&self) -> (r: Session)
        ensures
            r@ == self@,
    {
        let r = Session {
            id: self.id.clone(),
            kind: self.kind,
            parent_session_id: clone_opt(&self.parent_session_id),
            root_session_id: self.root_session_id.clone(),
            spawn_depth: self.spawn_depth,
            title: self.title.clone(),
            title_version: self.title_version,
            title_generated: self.title_generated,
            pinned: self.pinned,
            metadata_version: self.metadata_version,
            created_at: self.created_at,
            updated_at: self.updated_at,
            model: self.model.clone(),
            model_ref: clone_opt(&self.model_ref),
            reasoning_effort: clone_opt(&self.reasoning_effort),
            pending_question: clone_opt(&self.pending_question),
            token_budget: clone_opt(&self.token_budget),
            resolved_token_budget: clone_opt(&self.resolved_token_budget),
            token_usage: clone_opt(&self.token_usage),
            conversation_summary: clone_opt(&self.conversation_summary),
            force_manual_compression: clone_opt(&self.force_manual_compression),
            prompt_snapshot: clone_opt(&self.prompt_snapshot),
            task_list: clone_opt(&self.task_list),
            provider_transcript: self.provider_transcript.clone(),
            agent_runtime_state: match &self.agent_runtime_state {
                Some(v) => Some(v.duplicate()),
                None => None,
            },
            model_context_state: match &self.model_context_state {
                Some(v) => Some(v.duplicate()),
                None => None,
            },
            messages: clone_messages(&self.messages),
            metadata: clone_text_map(&self.metadata),
            runtime_metadata: match &self.runtime_metadata {
                Some(v) => Some(v.duplicate()),
                None => None,
            },
            authority_identity: self.authority_identity,
            supervisor_management: match &self.supervisor_management {
                Some(v) => Some(v.duplicate()),
                None => None,
            },
            document: self.document.clone(),
        };
        assert(r@ =~= self@);
        r
    }

    fn same_part1(&self, other: &Session) -> (r: bool)
        ensures
            r == (self@.id == other@.id
                && self@.kind == other@.kind
                && self@.parent_session_id == other@.parent_session_id
                && self@.root_session_id == other@.root_session_id
                && self@.spawn_depth == other@.spawn_depth
                && self@.title == other@.title
                && self@.title_version == other@.title_version
                && self@.title_generated == other@.title_generated),
    {
        if !(self.id == other.id) {
            return false;
        }
        if !(self.kind == other.kind) {
            return false;
        }
        if !(same_option_text(&self.parent_session_id, &other.parent_session_id)) {
            return false;
        }
        if !(self.root_session_id == other.root_session_id) {
            return false;
        }
        if !(self.spawn_depth == other.spawn_depth) {
            return false;
        }
        if !(self.title == other.title) {
            return false;
        }
        if !(self.title_version == other.title_version) {
            return false;
        }
        if !(self.title_generated == other.title_generated) {
            return false;
        }
        true
    }

    fn same_part2(&self, other: &Session) -> (r: bool)
        ensures
            r == (self@.pinned == other@.pinned
                && self@.metadata_version == other@.metadata_version
                && self@.created_at == other@.created_at
                && self@.updated_at == other@.updated_at
                && self@.model == other@.model
                && self@.model_ref == other@.model_ref
                && self@.reasoning_effort == other@.reasoning_effort
                && self@.pending_question == other@.pending_question),
    {
        if !(self.pinned == other.pinned) {
            return false;
        }
        if !(self.metadata_version == other.metadata_version) {
            return false;
        }
        if !(self.created_at == other.created_at) {
            return false;
        }
        if !(self.updated_at == other.updated_at) {
            return false;
        }
        if !(self.model == other.model) {
            return false;
        }
        if !(same_option_text(&self.model_ref, &other.model_ref)) {
            return false;
        }
        if !(same_option_text(&self.reasoning_effort, &other.reasoning_effort)) {
            return false;
        }
        if !(same_option_text(&self.pending_question, &other.pending_question)) {
            return false;
        }
        true
    }

    fn same_part3(&self, other: &Session) -> (r: bool)
        ensures
            r == (self@.token_budget == other@.token_budget
                && self@.resolved_token_budget == other@.resolved_token_budget
                && self@.token_usage == other@.token_usage
                && self@.conversation_summary == other@.conversation_summary
                && self@.force_manual_compression == other@.force_manual_compression
                && self@.prompt_snapshot == other@.prompt_snapshot
                && self@.task_list == other@.task_list
                && self@.provider_transcript == other@.provider_transcript),
    {
        if !(same_option_text(&self.token_budget, &other.token_budget)) {
            return false;
        }
        if !(same_option_text(&self.resolved_token_budget, &other.resolved_token_budget)) {
            return false;
        }
        if !(same_option_text(&self.token_usage, &other.token_usage)) {
            return false;
        }
        if !(same_option_text(&self.conversation_summary, &other.conversation_summary)) {
            return false;
        }
        if !(same_option_text(&self.force_manual_compression, &other.force_manual_compression)) {
            return false;
        }
        if !(same_option_text(&self.prompt_snapshot, &other.prompt_snapshot)) {
            return false;
        }
        if !(same_option_text(&self.task_list, &other.task_list)) {
            return false;
        }
        if !(self.provider_transcript == other.provider_transcript) {
            return false;
        }
        true
    }

    fn same_part4(&self, other: &Session) -> (r: bool)
        ensures
            r == (self@.agent_runtime_state == other@.agent_runtime_state
                && self@.model_context_state == other@.model_context_state
                && self@.messages == other@.messages
                && self@.metadata == other@.metadata
                && self@.runtime_metadata == other@.runtime_metadata
                && self@.authority_identity == other@.authority_identity
                && self@.supervisor_management == other@.supervisor_management
                && self@.document == other@.document),
    {
        if !(match (&self.agent_runtime_state, &other.agent_runtime_state) {
            (Some(x), Some(y)) => x.same(y),
            (None, None) => true,
            _ => false,
        }) {
            return false;
        }
        if !(match (&self.model_context_state, &other.model_context_state) {
            (Some(x), Some(y)) => x.same(y),
            (None, None) => true,
            _ => false,
        }) {
            return false;
        }
        if !(same_messages(&self.messages, &other.messages)) {
            return false;
        }
        if !(same_text_map(&self.metadata, &other.metadata)) {
            return false;
        }
        if !(match (&self.runtime_metadata, &other.runtime_metadata) {
            (Some(x), Some(y)) => x.same(y),
            (None, None) => true,
            _ => false,
        }) {
            return false;
        }
        if !(self.authority_identity == other.authority_identity) {
            return false;
        }
        if !(match (&self.supervisor_management, &other.supervisor_management) {
            (Some(x), Some(y)) => x.same(y),
            (None, None) => true,
            _ => false,
        }) {
            return false;
        }
        if !(self.document == other.document) {
            return false;
        }
        true
    }

    /// Whether both hold the same.
    pub fn same(&self, other: &Session) -> (r: bool)
        ensures
            r == (self@ == other@),
    {
        let r = self.same_part1(other) && self.same_part2(other) && self.same_part3(other) && self.same_part4(other);
        assert(r ==> self@ =~= other@);
        r
    }
}

// ----------------------------------------------------------------- accessors

/// Metadata key of the Task generation in the untyped map.
pub const TASK_LIST_VERSION_KEY: &'static str = "task_list_version";

/// A typed runtime value, or the untyped one under `key` where there is no typed one.
pub open spec fn typed_or_legacy(
    typed: Option<Seq<char>>,
    metadata: Map<Seq<char>, Seq<char>>,
    key: Seq<char>,
) -> Option<Seq<char>> {
    match typed {
        Some(v) => Some(v),
        None => if metadata.contains_key(key) {
            Some(metadata[key])
        } else {
            None
        },
    }
}

impl SessionRuntimeMetadataView {
    /// Whether nothing is set.
    pub open spec fn empty(self) -> bool {
        &&& self.subagent_type is None
        &&& self.last_run_status is None
        &&& self.last_run_error is None
        &&& self.pending_injected_messages is None
        &&& self.task_list_version is None
        &&& self.todo_list_version is None
        &&& self.session_inbox_admission is None
        &&& self.workspace_path is None
        &&& self.project_id is None
        &&& self.document.len() == 0
    }
}

/// Runtime metadata in which nothing is set.
pub open spec fn no_runtime_metadata() -> SessionRuntimeMetadataView {
    SessionRuntimeMetadataView {
        subagent_type: None,
        last_run_status: None,
        last_run_error: None,
        pending_injected_messages: None,
        task_list_version: None,
        todo_list_version: None,
        session_inbox_admission: None,
        workspace_path: None,
        project_id: None,
        document: Seq::empty(),
    }
}

/// `m`, or nothing where nothing is set in it.
pub open spec fn unless_empty(
    m: Option<SessionRuntimeMetadataView>,
) -> Option<SessionRuntimeMetadataView> {
    match m {
        Some(v) => if v.empty() {
            None
        } else {
            Some(v)
        },
        None => None,
    }
}

impl SessionRuntimeMetadata {
    /// Runtime metadata in which nothing is set.
    pub fn unset() -> (r: SessionRuntimeMetadata)
        ensures
            r@ == no_runtime_metadata(),
    {
        let r = SessionRuntimeMetadata {
            subagent_type: None,
            last_run_status: None,
            last_run_error: None,
            pending_injected_messages: None,
            task_list_version: None,
            todo_list_version: None,
            session_inbox_admission: None,
            workspace_path: None,
            project_id: None,
            document: String::new(),
        };
        assert(r@ =~= no_runtime_metadata());
        r
    }

    /// Whether nothing is set.
    pub fn is_empty(&self) -> (r: bool)
        ensures
            r == self@.empty(),
    {
        self.subagent_type.is_none() && self.last_run_status.is_none()
            && self.last_run_error.is_none() && self.pending_injected_messages.is_none()
            && self.task_list_version.is_none() && self.todo_list_version.is_none()
            && self.session_inbox_admission.is_none() && self.workspace_path.is_none()
            && self.project_id.is_none() && self.document.as_str().is_empty()
    }
}

/// `m`, or nothing where nothing is set in it.
pub fn drop_if_empty(m: Option<SessionRuntimeMetadata>) -> (r: Option<SessionRuntimeMetadata>)
    ensures
        opt_view(r) == unless_empty(opt_view(m)),
{
    match m {
        Some(v) => if v.is_empty() {
            None
        } else {
            Some(v)
        },
        None => None,
    }
}

/// The state of an agent that has not run, under a permission mode.
pub open spec fn fresh_runtime_state(mode: SessionPermissionMode) -> AgentRuntimeStateView {
    AgentRuntimeStateView { permission_mode: mode, plan_mode: None, document: Seq::empty() }
}

impl AgentRuntimeState {
    /// The state of an agent that has not run, under a permission mode.
    pub fn fresh(mode: SessionPermissionMode) -> (r: AgentRuntimeState)
        ensures
            r@ == fresh_runtime_state(mode),
    {
        AgentRuntimeState { permission_mode: mode, plan_mode: None, document: String::new() }
    }
}

impl SessionView {
    /// The Task generation.
    pub open spec fn task_generation(self) -> Option<Seq<char>> {
        typed_or_legacy(
            match self.runtime_metadata {
                Some(m) => m.task_list_version,
                None => None,
            },
            self.metadata,
            TASK_LIST_VERSION_KEY@,
        )
    }

    /// The session with its Task list and generation replaced.
    pub open spec fn with_tasks(self, list: Option<Seq<char>>, generation: Seq<char>) -> SessionView {
        SessionView { task_list: list, ..self.with_generation(generation) }
    }

    /// The session with its Task generation replaced: typed, with no untyped copy.
    pub open spec fn with_generation(self, generation: Seq<char>) -> SessionView {
        let base = match self.runtime_metadata {
            Some(m) => m,
            None => no_runtime_metadata(),
        };
        SessionView {
            metadata: self.metadata.remove(TASK_LIST_VERSION_KEY@),
            runtime_metadata: Some(
                SessionRuntimeMetadataView { task_list_version: Some(generation), ..base },
            ),
            ..self
        }
    }

    /// The session without its Task list and generation.
    pub open spec fn without_tasks(self) -> SessionView {
        SessionView {
            task_list: None,
            metadata: self.metadata.remove(TASK_LIST_VERSION_KEY@),
            runtime_metadata: unless_empty(
                match self.runtime_metadata {
                    Some(m) => Some(SessionRuntimeMetadataView { task_list_version: None, ..m }),
                    None => None,
                },
            ),
            ..self
        }
    }

    /// The effective permission mode.
    pub open spec fn permission_mode(self) -> SessionPermissionMode {
        match self.agent_runtime_state {
            Some(s) => s.permission_mode,
            None => SessionPermissionMode::Default,
        }
    }

    /// The session under another permission mode.
    pub open spec fn with_permission_mode(self, mode: SessionPermissionMode) -> SessionView {
        SessionView {
            agent_runtime_state: Some(
                match self.agent_runtime_state {
                    Some(s) => AgentRuntimeStateView { permission_mode: mode, ..s },
                    None => fresh_runtime_state(mode),
                },
            ),
            ..self
        }
    }

    /// The last run status.
    pub open spec fn run_status(self) -> Option<Seq<char>> {
        typed_or_legacy(
            match self.runtime_metadata {
                Some(m) => m.last_run_status,
                None => None,
            },
            self.metadata,
            "last_run_status"@,
        )
    }

    /// The last run error.
    pub open spec fn run_error(self) -> Option<Seq<char>> {
        typed_or_legacy(
            match self.runtime_metadata {
                Some(m) => m.last_run_error,
                None => None,
            },
            self.metadata,
            "last_run_error"@,
        )
    }

    /// The sub-agent profile.
    pub open spec fn profile(self) -> Option<Seq<char>> {
        typed_or_legacy(
            match self.runtime_metadata {
                Some(m) => m.subagent_type,
                None => None,
            },
            self.metadata,
            "subagent_type"@,
        )
    }

    /// The workspace path.
    pub open spec fn workspace(self) -> Option<Seq<char>> {
        typed_or_legacy(
            match self.runtime_metadata {
                Some(m) => m.workspace_path,
                None => None,
            },
            self.metadata,
            "workspace_path"@,
        )
    }

    /// The Project id as it was written.
    pub open spec fn project(self) -> Option<Seq<char>> {
        typed_or_legacy(
            match self.runtime_metadata {
                Some(m) => m.project_id,
                None => None,
            },
            self.metadata,
            "project_id"@,
        )
    }

    /// The session as it is read back: a root keeps no token budget.
    pub open spec fn without_stale_budget(self) -> SessionView {
        if self.kind == SessionKind::Root {
            SessionView { token_budget: None, ..self }
        } else {
            self
        }
    }

    /// The session without its message history.
    pub open spec fn without_messages(self) -> SessionView {
        SessionView { messages: Seq::empty(), ..self }
    }
}

/// The text under `key`.
pub fn get_text(m: &StrMap<String>, key: &str) -> (r: Option<String>)
    ensures
        opt_text(r) == if text_map(*m).contains_key(key@) {
            Some(text_map(*m)[key@])
        } else {
            None
        },
{
    match m.get(key) {
        Some(v) => Some(v.clone()),
        None => None,
    }
}

/// Puts a text under `key`.
pub fn put_text(m: &mut StrMap<String>, key: &str, value: String)
    ensures
        text_map(*final(m)) == text_map(*old(m)).insert(key@, value@),
{
    m.insert(key.to_owned(), value);
    assert(text_map(*m) =~= text_map(*old(m)).insert(key@, value@));
}

/// Takes the text under `key` out of the map.
pub fn drop_text(m: &mut StrMap<String>, key: &str)
    ensures
        text_map(*final(m)) == text_map(*old(m)).remove(key@),
{
    let _ = m.remove(key);
    assert(text_map(*m) =~= text_map(*old(m)).remove(key@));
}

impl Session {
    fn typed_or(&self, typed: Option<String>, key: &str) -> (r: Option<String>)
        ensures
            opt_text(r) == typed_or_legacy(opt_text(typed), self@.metadata, key@),
    {
        match typed {
            Some(v) => Some(v),
            None => get_text(&self.metadata, key),
        }
    }

    /// The Task generation.
    pub fn task_list_version_meta(&self) -> (r: Option<String>)
        ensures
            opt_text(r) == self@.task_generation(),
    {
        let typed = match &self.runtime_metadata {
            Some(m) => clone_opt(&m.task_list_version),
            None => None,
        };
        self.typed_or(typed, TASK_LIST_VERSION_KEY)
    }

    /// Replaces the Task generation.
    pub fn set_task_list_version_meta(&mut self, version: String)
        ensures
            final(self)@ == old(self)@.with_generation(version@),
    {
        drop_text(&mut self.metadata, TASK_LIST_VERSION_KEY);
        let mut metadata = match self.runtime_metadata.take() {
            Some(m) => m,
            None => SessionRuntimeMetadata::unset(),
        };
        metadata.task_list_version = Some(version);
        self.runtime_metadata = Some(metadata);
        assert(self@ =~= old(self)@.with_generation(version@));
    }

    /// Replaces the Task list and its generation.
    pub fn set_tasks(&mut self, list: Option<String>, version: String)
        ensures
            final(self)@ == old(self)@.with_tasks(opt_text(list), version@),
    {
        self.set_task_list_version_meta(version);
        self.task_list = list;
        assert(self@ =~= old(self)@.with_tasks(opt_text(list), version@));
    }

    /// Removes the Task list and its generation.
    pub fn clear_tasks(&mut self)
        ensures
            final(self)@ == old(self)@.without_tasks(),
    {
        self.task_list = None;
        drop_text(&mut self.metadata, TASK_LIST_VERSION_KEY);
        let metadata = match self.runtime_metadata.take() {
            Some(m) => {
                let mut m = m;
                m.task_list_version = None;
                Some(m)
            },
            None => None,
        };
        self.runtime_metadata = drop_if_empty(metadata);
        assert(self@ =~= old(self)@.without_tasks());
    }

    /// The effective permission mode.
    pub fn effective_permission_mode(&self) -> (r: SessionPermissionMode)
        ensures
            r == self@.permission_mode(),
    {
        match &self.agent_runtime_state {
            Some(s) => s.permission_mode,
            None => SessionPermissionMode::Default,
        }
    }

    /// Puts the session under another permission mode.
    pub fn set_permission_mode(&mut self, mode: SessionPermissionMode)
        ensures
            final(self)@ == old(self)@.with_permission_mode(mode),
    {
        let state = match self.agent_runtime_state.take() {
            Some(s) => {
                let mut s = s;
                s.permission_mode = mode;
                s
            },
            None => AgentRuntimeState::fresh(mode),
        };
        self.agent_runtime_state = Some(state);
        assert(self@ =~= old(self)@.with_permission_mode(mode));
    }

    /// The last run status.
    pub fn last_run_status(&self) -> (r: Option<String>)
        ensures
            opt_text(r) == self@.run_status(),
    {
        let typed = match &self.runtime_metadata {
            Some(m) => clone_opt(&m.last_run_status),
            None => None,
        };
        self.typed_or(typed, "last_run_status")
    }

    /// The last run error.
    pub fn last_run_error(&self) -> (r: Option<String>)
        ensures
            opt_text(r) == self@.run_error(),
    {
        let typed = match &self.runtime_metadata {
            Some(m) => clone_opt(&m.last_run_error),
            None => None,
        };
        self.typed_or(typed, "last_run_error")
    }

    /// The sub-agent profile.
    pub fn subagent_type(&self) -> (r: Option<String>)
        ensures
            opt_text(r) == self@.profile(),
    {
        let typed = match &self.runtime_metadata {
            Some(m) => clone_opt(&m.subagent_type),
            None => None,
        };
        self.typed_or(typed, "subagent_type")
    }

    /// The workspace path.
    pub fn workspace_path_meta(&self) -> (r: Option<String>)
        ensures
            opt_text(r) == self@.workspace(),
    {
        let typed = match &self.runtime_metadata {
            Some(m) => clone_opt(&m.workspace_path),
            None => None,
        };
        self.typed_or(typed, "workspace_path")
    }

    /// The Project id as it was written.
    pub fn project_id_meta(&self) -> (r: Option<String>)
        ensures
            opt_text(r) == self@.project(),
    {
        let typed = match &self.runtime_metadata {
            Some(m) => clone_opt(&m.project_id),
            None => None,
        };
        self.typed_or(typed, "project_id")
    }

    /// Drops the token budget of a root, which is resolved anew.
    pub fn clear_stale_root_token_budget(&mut self)
        ensures
            final(self)@ == old(self)@.without_stale_budget(),
    {
        if self.kind == SessionKind::Root {
            self.token_budget = None;
        }
        assert(self@ =~= old(self)@.without_stale_budget());
    }

    /// Drops the message history.
    pub fn clear_messages(&mut self)
        ensures
            final(self)@ == old(self)@.without_messages(),
    {
        self.messages = Vec::new();
        assert(self@ =~= old(self)@.without_messages());
    }

    /// A root session in which nothing has happened yet.
    pub fn new_root(id: &str, model: &str, title: &str, now: Timestamp) -> (r: Session)
        ensures
            r@ == blank_root(id@, model@, title@, now),
    {
        let r = Session {
            id: id.to_owned(),
            kind: SessionKind::Root,
            parent_session_id: None,
            root_session_id: id.to_owned(),
            spawn_depth: 0,
            title: title.to_owned(),
            title_version: 0,
            title_generated: true,
            pinned: false,
            metadata_version: 0,
            created_at: now,
            updated_at: now,
            model: model.to_owned(),
            model_ref: None,
            reasoning_effort: None,
            pending_question: None,
            token_budget: None,
            resolved_token_budget: None,
            token_usage: None,
            conversation_summary: None,
            force_manual_compression: None,
            prompt_snapshot: None,
            task_list: None,
            provider_transcript: String::new(),
            agent_runtime_state: None,
            model_context_state: None,
            messages: Vec::new(),
            metadata: StrMap::new(),
            runtime_metadata: None,
            authority_identity: SessionAuthorityIdentity::Ordinary,
            supervisor_management: None,
            document: String::new(),
        };
        assert(r@.messages =~= Seq::<MessageView>::empty());
        assert(r@.metadata =~= Map::<Seq<char>, Seq<char>>::empty());
        r
    }
}

/// A root session in which nothing has happened yet.
pub open spec fn blank_root(
    id: Seq<char>,
    model: Seq<char>,
    title: Seq<char>,
    now: Timestamp,
) -> SessionView {
    SessionView {
        id,
        kind: SessionKind::Root,
        parent_session_id: None,
        root_session_id: id,
        spawn_depth: 0,
        title,
        title_version: 0,
        title_generated: true,
        pinned: false,
        metadata_version: 0,
        created_at: now,
        updated_at: now,
        model,
        model_ref: None,
        reasoning_effort: None,
        pending_question: None,
        token_budget: None,
        resolved_token_budget: None,
        token_usage: None,
        conversation_summary: None,
        force_manual_compression: None,
        prompt_snapshot: None,
        task_list: None,
        provider_transcript: Seq::empty(),
        agent_runtime_state: None,
        model_context_state: None,
        messages: Seq::empty(),
        metadata: Map::empty(),
        runtime_metadata: None,
        authority_identity: SessionAuthorityIdentity::Ordinary,
        supervisor_management: None,
        document: Seq::empty(),
    }
}

/// After the Task generation is set, it reads back as it was set.
pub proof fn generation_reads_back(s: SessionView, generation: Seq<char>)
    ensures
        s.with_generation(generation).task_generation() == Some(generation),
{
}

/// Setting Tasks changes nothing but the Tasks.
pub proof fn setting_tasks_changes_only_tasks(
    s: SessionView,
    list: Option<Seq<char>>,
    generation: Seq<char>,
)
    ensures
        s.with_tasks(list, generation).without_tasks() == s.without_tasks(),
        s.with_tasks(list, generation).task_list == list,
        s.with_tasks(list, generation).task_generation() == Some(generation),
{
    let t = s.with_tasks(list, generation).without_tasks();
    assert(t.metadata =~= s.without_tasks().metadata);
    assert(t =~= s.without_tasks());
}

/// Each of these texts is read from its typed field; the metadata entry of its name counts only
/// where that field is empty.
pub proof fn typed_texts_come_first(s: SessionView)
    ensures
        s.runtime_metadata is Some && s.runtime_metadata->0.task_list_version is Some ==> s.task_generation()
            == s.runtime_metadata->0.task_list_version,
        (s.runtime_metadata is None || s.runtime_metadata->0.task_list_version is None) && s.metadata.contains_key(
            "task_list_version"@,
        ) ==> s.task_generation() == Some(s.metadata["task_list_version"@]),
        (s.runtime_metadata is None || s.runtime_metadata->0.task_list_version is None)
            && !s.metadata.contains_key("task_list_version"@) ==> s.task_generation() is None,
        s.runtime_metadata is Some && s.runtime_metadata->0.last_run_status is Some ==> s.run_status()
            == s.runtime_metadata->0.last_run_status,
        (s.runtime_metadata is None || s.runtime_metadata->0.last_run_status is None) && s.metadata.contains_key(
            "last_run_status"@,
        ) ==> s.run_status() == Some(s.metadata["last_run_status"@]),
        (s.runtime_metadata is None || s.runtime_metadata->0.last_run_status is None)
            && !s.metadata.contains_key("last_run_status"@) ==> s.run_status() is None,
        s.runtime_metadata is Some && s.runtime_metadata->0.last_run_error is Some ==> s.run_error()
            == s.runtime_metadata->0.last_run_error,
        (s.runtime_metadata is None || s.runtime_metadata->0.last_run_error is None) && s.metadata.contains_key(
            "last_run_error"@,
        ) ==> s.run_error() == Some(s.metadata["last_run_error"@]),
        (s.runtime_metadata is None || s.runtime_metadata->0.last_run_error is None)
            && !s.metadata.contains_key("last_run_error"@) ==> s.run_error() is None,
        s.runtime_metadata is Some && s.runtime_metadata->0.subagent_type is Some ==> s.profile()
            == s.runtime_metadata->0.subagent_type,
        (s.runtime_metadata is None || s.runtime_metadata->0.subagent_type is None) && s.metadata.contains_key(
            "subagent_type"@,
        ) ==> s.profile() == Some(s.metadata["subagent_type"@]),
        (s.runtime_metadata is None || s.runtime_metadata->0.subagent_type is None)
            && !s.metadata.contains_key("subagent_type"@) ==> s.profile() is None,
        s.runtime_metadata is Some && s.runtime_metadata->0.workspace_path is Some ==> s.workspace()
            == s.runtime_metadata->0.workspace_path,
        (s.runtime_metadata is None || s.runtime_metadata->0.workspace_path is None) && s.metadata.contains_key(
            "workspace_path"@,
        ) ==> s.workspace() == Some(s.metadata["workspace_path"@]),
        (s.runtime_metadata is None || s.runtime_metadata->0.workspace_path is None)
            && !s.metadata.contains_key("workspace_path"@) ==> s.workspace() is None,
        s.runtime_metadata is Some && s.runtime_metadata->0.project_id is Some ==> s.project()
            == s.runtime_metadata->0.project_id,
        (s.runtime_metadata is None || s.runtime_metadata->0.project_id is None) && s.metadata.contains_key(
            "project_id"@,
        ) ==> s.project() == Some(s.metadata["project_id"@]),
        (s.runtime_metadata is None || s.runtime_metadata->0.project_id is None)
            && !s.metadata.contains_key("project_id"@) ==> s.project() is None,
{
}

/// Tasks are set as a list and a typed generation: the old metadata entry for the generation goes,
/// and every other metadata entry, runtime metadata field and session field stays.
pub proof fn tasks_are_set_narrowly(
    s: SessionView,
    list: Option<Seq<char>>,
    generation: Seq<char>,
    key: Seq<char>,
)
    requires
        key != "task_list_version"@,
    ensures
        ({
            let t = s.with_tasks(list, generation);
            &&& t.task_list == list
            &&& t.runtime_metadata is Some
            &&& t.runtime_metadata->0.task_list_version == Some(generation)
            &&& !t.metadata.contains_key("task_list_version"@)
            &&& t.metadata.contains_key(key) == s.metadata.contains_key(key)
            &&& s.metadata.contains_key(key) ==> t.metadata[key] == s.metadata[key]
            &&& (SessionView {
                task_list: s.task_list,
                runtime_metadata: s.runtime_metadata,
                metadata: s.metadata,
                ..t
            }) == s
            &&& s.runtime_metadata is Some ==> (SessionRuntimeMetadataView {
                task_list_version: s.runtime_metadata->0.task_list_version,
                ..t.runtime_metadata->0
            }) == s.runtime_metadata->0
            &&& s.runtime_metadata is None ==> (SessionRuntimeMetadataView {
                task_list_version: None,
                ..t.runtime_metadata->0
            }).empty()
        }),
{
}

/// A session without its Tasks differs from the session in the list and the generation alone.
pub proof fn only_tasks_are_left_out(s: SessionView, key: Seq<char>)
    requires
        key != "task_list_version"@,
    ensures
        ({
            let t = s.without_tasks();
            &&& t.task_list is None
            &&& t.task_generation() is None
            &&& t.metadata.contains_key(key) == s.metadata.contains_key(key)
            &&& s.metadata.contains_key(key) ==> t.metadata[key] == s.metadata[key]
            &&& (SessionView {
                task_list: s.task_list,
                runtime_metadata: s.runtime_metadata,
                metadata: s.metadata,
                ..t
            }) == s
            &&& t.runtime_metadata is Some ==> s.runtime_metadata is Some
                && (SessionRuntimeMetadataView {
                task_list_version: s.runtime_metadata->0.task_list_version,
                ..t.runtime_metadata->0
            }) == s.runtime_metadata->0
            &&& t.runtime_metadata is None && s.runtime_metadata is Some
                ==> (SessionRuntimeMetadataView {
                task_list_version: None,
                ..s.runtime_metadata->0
            }).empty()
        }),
{
}

/// Runtime metadata is empty exactly where none of its fields holds anything.
pub proof fn empty_metadata_holds_nothing(m: SessionRuntimeMetadataView)
    ensures
        m.empty() <==> m.subagent_type is None && m.last_run_status is None && m.last_run_error
            is None && m.pending_injected_messages is None && m.task_list_version is None
            && m.todo_list_version is None && m.session_inbox_admission is None && m.workspace_path
            is None && m.project_id is None && m.document.len() == 0,
{
}

/// A permission mode that is set is the one that is read, and nothing else of the session or its
/// runtime state changes; a session without runtime state is in the default mode.
pub proof fn a_mode_reads_back(s: SessionView, mode: SessionPermissionMode)
    ensures
        s.with_permission_mode(mode).agent_runtime_state is Some,
        s.with_permission_mode(mode).agent_runtime_state->0.permission_mode == mode,
        s.with_permission_mode(mode).permission_mode() == mode,
        s.agent_runtime_state is Some ==> s.permission_mode()
            == s.agent_runtime_state->0.permission_mode,
        s.agent_runtime_state is None ==> s.permission_mode() == SessionPermissionMode::Default,
        s.agent_runtime_state is Some ==> (AgentRuntimeStateView {
            permission_mode: s.agent_runtime_state->0.permission_mode,
            ..s.with_permission_mode(mode).agent_runtime_state->0
        }) == s.agent_runtime_state->0,
        (SessionView {
            agent_runtime_state: s.agent_runtime_state,
            ..s.with_permission_mode(mode)
        }) == s,
{
}

/// Only a root loses its token budget on being read, and nothing else of any session changes.
pub proof fn only_a_root_budget_is_stale(s: SessionView)
    ensures
        s.kind == SessionKind::Root ==> s.without_stale_budget().token_budget is None,
        s.kind == SessionKind::Child ==> s.without_stale_budget() == s,
        (SessionView { token_budget: s.token_budget, ..s.without_stale_budget() }) == s,
{
}

/// A new root belongs to itself, was never edited, and holds no conversation, Tasks, Project,
/// ledger or authority.
pub proof fn a_new_root_is_blank(
    id: Seq<char>,
    model: Seq<char>,
    title: Seq<char>,
    now: Timestamp,
)
    ensures
        ({
            let s = blank_root(id, model, title, now);
            &&& s.id == id && s.root_session_id == id && s.kind == SessionKind::Root
            &&& s.parent_session_id is None && s.spawn_depth == 0
            &&& s.model == model && s.title == title
            &&& s.created_at == now && s.updated_at == now
            &&& s.title_version == 0 && s.title_generated && !s.pinned && s.metadata_version == 0
            &&& s.messages.len() == 0 && s.provider_transcript.len() == 0 && s.document.len() == 0
            &&& s.metadata.dom() =~= Set::empty() && s.runtime_metadata is None
            &&& s.task_list is None && s.task_generation() is None && s.project() is None
            &&& s.agent_runtime_state is None && s.model_context_state is None
            &&& s.authority_identity == SessionAuthorityIdentity::Ordinary
            &&& s.supervisor_management is None && s.pending_question is None
            &&& s.token_budget is None && s.resolved_token_budget is None && s.token_usage is None
            &&& s.conversation_summary is None && s.force_manual_compression is None
            &&& s.prompt_snapshot is None && s.model_ref is None && s.reasoning_effort is None
        }),
{
}

/// What is said of a session is said of its own fields: no field is left out or exchanged.
pub proof fn a_session_is_seen_whole(s: Session)
    ensures
        s@.id == s.id@ && s@.kind == s.kind && s@.root_session_id == s.root_session_id@,
        s@.parent_session_id is Some <==> s.parent_session_id is Some,
        s.parent_session_id is Some ==> s@.parent_session_id->0 == s.parent_session_id->0@,
        s@.spawn_depth == s.spawn_depth && s@.title == s.title@ && s@.title_version
            == s.title_version,
        s@.title_generated == s.title_generated && s@.pinned == s.pinned,
        s@.metadata_version == s.metadata_version,
        s@.created_at == s.created_at && s@.updated_at == s.updated_at && s@.model == s.model@,
        s@.model_ref == opt_text(s.model_ref) && s@.reasoning_effort == opt_text(s.reasoning_effort),
        s@.pending_question == opt_text(s.pending_question),
        s@.token_budget == opt_text(s.token_budget),
        s@.resolved_token_budget == opt_text(s.resolved_token_budget),
        s@.token_usage == opt_text(s.token_usage),
        s@.conversation_summary == opt_text(s.conversation_summary),
        s@.force_manual_compression == opt_text(s.force_manual_compression),
        s@.prompt_snapshot == opt_text(s.prompt_snapshot),
        s@.task_list == opt_text(s.task_list),
        s@.provider_transcript == s.provider_transcript@ && s@.document == s.document@,
        s@.authority_identity == s.authority_identity,
        s@.agent_runtime_state is Some <==> s.agent_runtime_state is Some,
        s.agent_runtime_state is Some ==> s@.agent_runtime_state->0.permission_mode
            == s.agent_runtime_state->0.permission_mode && s@.agent_runtime_state->0.document
            == s.agent_runtime_state->0.document@,
        s@.model_context_state is Some <==> s.model_context_state is Some,
        s.model_context_state is Some ==> s@.model_context_state->0.state_revision
            == s.model_context_state->0.state_revision && s@.model_context_state->0.document
            == s.model_context_state->0.document@,
        s@.messages.len() == s.messages@.len(),
        forall|i: int|
            0 <= i < s.messages@.len() ==> (#[trigger] s@.messages[i]).document
                == s.messages@[i].document@ && s@.messages[i].role == s.messages@[i].role,
        forall|k: Seq<char>| #[trigger] s@.metadata.contains_key(k) <==> s.metadata@.contains_key(k),
        forall|k: Seq<char>|
            s.metadata@.contains_key(k) ==> #[trigger] s@.metadata[k] == s.metadata@[k]@,
        s@.runtime_metadata is Some <==> s.runtime_metadata is Some,
        s@.supervisor_management is Some <==> s.supervisor_management is Some,
{
}

/// What is said of these values is said of their own fields: none is left out or exchanged.
pub proof fn nothing_is_left_unseen(
    a: ImageOcrResult,
    b: Message,
    c: AgentRuntimeState,
    d: ModelContextState,
    e: SessionRuntimeMetadata,
    f: ManagedLink,
    g: SupervisorManagementState,
)
    ensures
        a@.image_url == a.image_url@ && a@.document == a.document@,
        b@.content_parts is Some <==> b.content_parts is Some,
        b.content_parts is Some ==> b@.content_parts->0.len() == b.content_parts->0@.len() && forall|i: int|
            0 <= i < b.content_parts->0@.len() ==> #[trigger] b@.content_parts->0[i] == b.content_parts->0@[i]@,
        b@.image_ocr is Some <==> b.image_ocr is Some,
        b.image_ocr is Some ==> b@.image_ocr->0.len() == b.image_ocr->0@.len() && forall|i: int|
            0 <= i < b.image_ocr->0@.len() ==> #[trigger] b@.image_ocr->0[i] == b.image_ocr->0@[i]@,
        b@.role == b.role && b@.compression_level == b.compression_level,
        b@.system_resume == b.system_resume && b@.document == b.document@,
        c@.plan_mode is Some <==> c.plan_mode is Some,
        c.plan_mode is Some ==> c@.plan_mode->0 == c.plan_mode->0@,
        c@.permission_mode == c.permission_mode && c@.document == c.document@,
        d@.state_revision == d.state_revision && d@.document == d.document@,
        e@.subagent_type is Some <==> e.subagent_type is Some,
        e.subagent_type is Some ==> e@.subagent_type->0 == e.subagent_type->0@,
        e@.last_run_status is Some <==> e.last_run_status is Some,
        e.last_run_status is Some ==> e@.last_run_status->0 == e.last_run_status->0@,
        e@.last_run_error is Some <==> e.last_run_error is Some,
        e.last_run_error is Some ==> e@.last_run_error->0 == e.last_run_error->0@,
        e@.pending_injected_messages is Some <==> e.pending_injected_messages is Some,
        e.pending_injected_messages is Some ==> e@.pending_injected_messages->0.len() == e.pending_injected_messages->0@.len() && forall|i: int|
            0 <= i < e.pending_injected_messages->0@.len() ==> #[trigger] e@.pending_injected_messages->0[i] == e.pending_injected_messages->0@[i]@,
        e@.task_list_version is Some <==> e.task_list_version is Some,
        e.task_list_version is Some ==> e@.task_list_version->0 == e.task_list_version->0@,
        e@.todo_list_version is Some <==> e.todo_list_version is Some,
        e.todo_list_version is Some ==> e@.todo_list_version->0 == e.todo_list_version->0@,
        e@.session_inbox_admission is Some <==> e.session_inbox_admission is Some,
        e.session_inbox_admission is Some ==> e@.session_inbox_admission->0 == e.session_inbox_admission->0@,
        e@.workspace_path is Some <==> e.workspace_path is Some,
        e.workspace_path is Some ==> e@.workspace_path->0 == e.workspace_path->0@,
        e@.project_id is Some <==> e.project_id is Some,
        e.project_id is Some ==> e@.project_id->0 == e.project_id->0@,
        e@.document == e.document@,
        f@.revision == f.revision && f@.enabled == f.enabled,
        f@.target_created_at == f.target_created_at && f@.target_project_id == f.target_project_id@,
        f@.target_metadata_version == f.target_metadata_version,
        forall|t: Seq<char>| #[trigger]
            g@.allowed_projects.contains(t) <==> exists|i: int|
                0 <= i < g.allowed_projects@.len() && (#[trigger] g.allowed_projects@[i])@ == t,
        forall|k: Seq<char>| #[trigger] g@.links.contains_key(k) <==> g.links@.contains_key(k),
        forall|k: Seq<char>|
            g.links@.contains_key(k) ==> #[trigger] g@.links[k] == g.links@[k]@,
        g@.schema_version == g.schema_version && g@.incarnation_id == g.incarnation_id,
        g@.revision == g.revision,
{
    assert forall|t: Seq<char>| #[trigger]
        g@.allowed_projects.contains(t) <==> exists|i: int|
            0 <= i < g.allowed_projects@.len() && (#[trigger] g.allowed_projects@[i])@ == t by {
        crate::textset::lemma_text_set(g.allowed_projects@, t);
    }
}

/// Optional values, lists and maps are seen with everything that they hold.
pub proof fn collections_are_seen_whole<T: View>(
    v: T,
    s: Seq<T>,
    l: Vec<T>,
    t: String,
    ts: Vec<String>,
    m: StrMap<String>,
    p: MessagePart,
)
    ensures
        opt_view(None::<T>) == None::<T::V> && opt_view(Some(v)) == Some(v@),
        opt_text(None) == None::<Seq<char>> && opt_text(Some(t)) == Some(t@),
        opt_texts(None) == None::<Seq<Seq<char>>>,
        opt_texts(Some(ts)) is Some && opt_texts(Some(ts))->0 == text::texts(ts@),
        opt_views(None::<Vec<T>>) == None::<Seq<T::V>>,
        opt_views(Some(l)) is Some && opt_views(Some(l))->0 == views(l@),
        views(s).len() == s.len(),
        forall|i: int| 0 <= i < s.len() ==> #[trigger] views(s)[i] == s[i]@,
        forall|k: Seq<char>| #[trigger] text_map(m).contains_key(k) <==> m@.contains_key(k),
        forall|k: Seq<char>| m@.contains_key(k) ==> #[trigger] text_map(m)[k] == m@[k]@,
        p@ is ImageUrl <==> p is ImageUrl,
        p is ImageUrl ==> p@->url == p->url@ && p@->ImageUrl_document == p->ImageUrl_document@,
        p is Other ==> p@->Other_document == p->Other_document@,
{
}

} // verus!
