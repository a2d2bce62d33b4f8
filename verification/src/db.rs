//! The conversation store and its builder.
//!
//! `Repository` owns every durable entity: models, settings, conversations
//! and messages. Rows are held in creation order; identities are assigned
//! from monotone counters and `created_at` from a logical clock, so creation
//! order, identity order and timestamp order agree. Every read or write
//! surfaces failure as one opaque cause string.

use vstd::prelude::*;

use crate::entities::{
    Conversation, ConversationListItem, ConversationListItemV, ConversationV, Message, MessageV,
    Model, ModelV, NewMessage, ProviderOptions, Roles, Setting, SettingV,
};

verus! {

/// Image of the whole store: the four tables and the id/clock counters.
#[verifier::ext_equal]
pub struct StoreV {
    pub models: Seq<ModelV>,
    pub settings: Seq<SettingV>,
    pub conversations: Seq<ConversationV>,
    pub messages: Seq<MessageV>,
    pub next_model_id: int,
    pub next_conversation_id: int,
    pub next_message_id: int,
    pub clock: int,
}

pub open spec fn deep_models(s: Seq<Model>) -> Seq<ModelV> {
    s.map_values(|m: Model| m@)
}

pub open spec fn deep_settings(s: Seq<Setting>) -> Seq<SettingV> {
    s.map_values(|m: Setting| m@)
}

pub open spec fn deep_conversations(s: Seq<Conversation>) -> Seq<ConversationV> {
    s.map_values(|m: Conversation| m@)
}

pub open spec fn deep_messages(s: Seq<Message>) -> Seq<MessageV> {
    s.map_values(|m: Message| m@)
}

pub open spec fn deep_items(s: Seq<ConversationListItem>) -> Seq<ConversationListItemV> {
    s.map_values(|m: ConversationListItem| m@)
}

/// The messages of one conversation, in creation order.
pub open spec fn msgs_of(msgs: Seq<MessageV>, conversation_id: int) -> Seq<MessageV>
    decreases msgs.len(),
{
    if msgs.len() == 0 {
        Seq::empty()
    } else {
        let rest = msgs_of(msgs.drop_last(), conversation_id);
        if msgs.last().conversation_id == conversation_id {
            rest.push(msgs.last())
        } else {
            rest
        }
    }
}

pub proof fn lemma_msgs_of_push(msgs: Seq<MessageV>, m: MessageV, conversation_id: int)
    ensures
        msgs_of(msgs.push(m), conversation_id) == if m.conversation_id == conversation_id {
            msgs_of(msgs, conversation_id).push(m)
        } else {
            msgs_of(msgs, conversation_id)
        },
{
    assert(msgs.push(m).drop_last() =~= msgs);
    assert(msgs.push(m).last() == m);
}

/// A conversation created together with its user-authored seed message has
/// that seed as its newest message: read back immediately after the
/// creation, the conversation's last message carries the user role.
pub proof fn lemma_seed_message_is_last(messages: Seq<MessageV>, seed: MessageV)
    requires
        seed.role == Roles::User.spec_code(),
    ensures
        msgs_of(messages.push(seed), seed.conversation_id).len() > 0,
        msgs_of(messages.push(seed), seed.conversation_id).last() == seed,
        msgs_of(messages.push(seed), seed.conversation_id).last().role == Roles::User.spec_code(),
{
    lemma_msgs_of_push(messages, seed, seed.conversation_id);
}

/// The first model row with the given id, if any.
pub open spec fn model_with_id(models: Seq<ModelV>, id: int) -> Option<ModelV>
    decreases models.len(),
{
    if models.len() == 0 {
        Option::None
    } else if models.first().id == id {
        Option::Some(models.first())
    } else {
        model_with_id(models.drop_first(), id)
    }
}

/// The first conversation row with the given id, if any.
pub open spec fn conversation_with_id(convs: Seq<ConversationV>, id: int) -> Option<ConversationV>
    decreases convs.len(),
{
    if convs.len() == 0 {
        Option::None
    } else if convs.first().id == id {
        Option::Some(convs.first())
    } else {
        conversation_with_id(convs.drop_first(), id)
    }
}

proof fn lemma_model_with_id_skip(models: Seq<ModelV>, id: int, i: int)
    requires
        0 <= i <= models.len(),
        forall|j: int| 0 <= j < i ==> models[j].id != id,
    ensures
        model_with_id(models, id) == model_with_id(models.skip(i), id),
    decreases i,
{
    if i > 0 {
        lemma_model_with_id_skip(models, id, i - 1);
        assert(models.skip(i - 1).first() == models[i - 1]);
        assert(models.skip(i - 1).drop_first() =~= models.skip(i));
    } else {
        assert(models.skip(0) =~= models);
    }
}

proof fn lemma_conversation_with_id_skip(convs: Seq<ConversationV>, id: int, i: int)
    requires
        0 <= i <= convs.len(),
        forall|j: int| 0 <= j < i ==> convs[j].id != id,
    ensures
        conversation_with_id(convs, id) == conversation_with_id(convs.skip(i), id),
    decreases i,
{
    if i > 0 {
        lemma_conversation_with_id_skip(convs, id, i - 1);
        assert(convs.skip(i - 1).first() == convs[i - 1]);
        assert(convs.skip(i - 1).drop_first() =~= convs.skip(i));
    } else {
        assert(convs.skip(0) =~= convs);
    }
}

/// Whether some settings row carries the given key.
pub open spec fn has_key(settings: Seq<SettingV>, key: Seq<char>) -> bool {
    exists|i: int| 0 <= i < settings.len() && settings[i].key == key
}

/// Every settings key occurs at most once.
pub open spec fn keys_unique(settings: Seq<SettingV>) -> bool {
    forall|i: int, j: int|
        0 <= i < j < settings.len() ==> settings[i].key != settings[j].key
}

/// Insert-or-update keyed by the setting name; a later write wins on the
/// value column only.
pub open spec fn upsert_model(settings: Seq<SettingV>, s: SettingV) -> Seq<SettingV> {
    if has_key(settings, s.key) {
        settings.map_values(
            |t: SettingV|
                if t.key == s.key {
                    SettingV { key: t.key, value: s.value }
                } else {
                    t
                },
        )
    } else {
        settings.push(s)
    }
}

/// Upserting the same key/value pair twice leaves the settings exactly as
/// one upsert left them.
pub proof fn lemma_upsert_idempotent(settings: Seq<SettingV>, s: SettingV)
    ensures
        upsert_model(upsert_model(settings, s), s) == upsert_model(settings, s),
{
    let once = upsert_model(settings, s);
    if has_key(settings, s.key) {
        let i = choose|i: int| 0 <= i < settings.len() && settings[i].key == s.key;
        assert(once[i].key == s.key);
        assert(has_key(once, s.key));
        assert(upsert_model(once, s) =~= once);
    } else {
        assert(once[settings.len() as int] == s);
        assert(has_key(once, s.key));
        assert(upsert_model(once, s) =~= once);
    }
}

/// After an upsert over unique keys, exactly one row carries the key, and it
/// carries the written value.
pub proof fn lemma_upsert_stores_value(settings: Seq<SettingV>, s: SettingV)
    requires
        keys_unique(settings),
    ensures
        exists|i: int|
            0 <= i < upsert_model(settings, s).len() && upsert_model(settings, s)[i] == s
                && forall|j: int|
                0 <= j < upsert_model(settings, s).len() && j != i ==> upsert_model(
                    settings,
                    s,
                )[j].key != s.key,
{
    let out = upsert_model(settings, s);
    if has_key(settings, s.key) {
        let i = choose|i: int| 0 <= i < settings.len() && settings[i].key == s.key;
        assert(out[i] == s);
        assert(forall|j: int| 0 <= j < out.len() && j != i ==> out[j].key != s.key);
    } else {
        let i = settings.len() as int;
        assert(out[i] == s);
        assert(forall|j: int| 0 <= j < out.len() && j != i ==> out[j].key != s.key);
    }
}

proof fn lemma_upsert_preserves_unique(settings: Seq<SettingV>, s: SettingV)
    requires
        keys_unique(settings),
    ensures
        keys_unique(upsert_model(settings, s)),
{
    let out = upsert_model(settings, s);
    if has_key(settings, s.key) {
        assert(forall|i: int| 0 <= i < out.len() ==> out[i].key == settings[i].key);
    }
}

/// The conversations with the stored options blob of one conversation
/// replaced.
pub open spec fn set_options(
    convs: Seq<ConversationV>,
    conversation_id: int,
    options: Seq<char>,
) -> Seq<ConversationV> {
    convs.map_values(
        |c: ConversationV|
            if c.id == conversation_id {
                ConversationV { options: options, ..c }
            } else {
                c
            },
    )
}

/// One row of the conversation list: the conversation joined to its model's
/// provider name and to its message count.
pub open spec fn item_of(c: ConversationV, m: ModelV, count: int) -> ConversationListItemV {
    ConversationListItemV {
        id: c.id,
        model_id: c.model_id,
        subject: c.subject,
        created_at: c.created_at,
        model_provider: m.provider,
        message_count: count,
    }
}

/// The conversation list: every conversation whose model exists, in creation
/// order, each with its provider name and message count. A conversation with
/// no messages still appears; one whose model row is missing does not.
pub open spec fn conversation_items(
    convs: Seq<ConversationV>,
    models: Seq<ModelV>,
    msgs: Seq<MessageV>,
) -> Seq<ConversationListItemV>
    decreases convs.len(),
{
    if convs.len() == 0 {
        Seq::empty()
    } else {
        let rest = conversation_items(convs.drop_last(), models, msgs);
        let c = convs.last();
        match model_with_id(models, c.model_id) {
            Option::Some(m) => rest.push(item_of(c, m, msgs_of(msgs, c.id).len() as int)),
            Option::None => rest,
        }
    }
}

pub proof fn lemma_conversation_items_push(
    convs: Seq<ConversationV>,
    c: ConversationV,
    models: Seq<ModelV>,
    msgs: Seq<MessageV>,
)
    ensures
        conversation_items(convs.push(c), models, msgs) == match model_with_id(
            models,
            c.model_id,
        ) {
            Option::Some(m) => conversation_items(convs, models, msgs).push(
                item_of(c, m, msgs_of(msgs, c.id).len() as int),
            ),
            Option::None => conversation_items(convs, models, msgs),
        },
{
    assert(convs.push(c).drop_last() =~= convs);
    assert(convs.push(c).last() == c);
}

/// The conversation store. Rows live in memory in creation order; the
/// surrounding process decides where they are loaded from and saved to.
pub struct Repository {
    db_url: String,
    models: Vec<Model>,
    settings: Vec<Setting>,
    conversations: Vec<Conversation>,
    messages: Vec<Message>,
    next_model_id: i32,
    next_conversation_id: i32,
    next_message_id: i32,
    clock: i64,
}

impl View for Repository {
    type V = StoreV;

    closed spec fn view(&self) -> StoreV {
        StoreV {
            models: deep_models(self.models@),
            settings: deep_settings(self.settings@),
            conversations: deep_conversations(self.conversations@),
            messages: deep_messages(self.messages@),
            next_model_id: self.next_model_id as int,
            next_conversation_id: self.next_conversation_id as int,
            next_message_id: self.next_message_id as int,
            clock: self.clock as int,
        }
    }
}

impl Repository {
    /// Well-formedness: ids are positive, strictly increasing in creation
    /// order and below their counter; settings keys are unique; the clock
    /// never runs backwards past zero.
    pub open spec fn wf(&self) -> bool {
        &&& forall|i: int, j: int|
            0 <= i < j < self@.models.len() ==> self@.models[i].id < self@.models[j].id
        &&& forall|i: int|
            0 <= i < self@.models.len() ==> 1 <= #[trigger] self@.models[i].id
                < self@.next_model_id
        &&& forall|i: int, j: int|
            0 <= i < j < self@.conversations.len() ==> self@.conversations[i].id
                < self@.conversations[j].id
        &&& forall|i: int|
            0 <= i < self@.conversations.len() ==> 1 <= #[trigger] self@.conversations[i].id
                < self@.next_conversation_id
        &&& forall|i: int, j: int|
            0 <= i < j < self@.messages.len() ==> self@.messages[i].id < self@.messages[j].id
        &&& forall|i: int|
            0 <= i < self@.messages.len() ==> 1 <= #[trigger] self@.messages[i].id
                < self@.next_message_id
        &&& keys_unique(self@.settings)
        &&& 1 <= self@.next_model_id
        &&& 1 <= self@.next_conversation_id
        &&& 1 <= self@.next_message_id
        &&& 0 <= self@.clock
    }

    /// Whether the id counters and the clock still have room for one more
    /// row of each kind.
    pub open spec fn has_room(&self) -> bool {
        &&& self@.next_model_id < i32::MAX
        &&& self@.next_conversation_id < i32::MAX
        &&& self@.next_message_id < i32::MAX
        &&& self@.clock < i64::MAX
    }

    /// An empty store bound to the given database location.
    fn empty(db_url: String) -> (r: Repository)
        ensures
            r.wf(),
            r@.models =~= Seq::<ModelV>::empty(),
            r@.settings =~= Seq::<SettingV>::empty(),
            r@.conversations =~= Seq::<ConversationV>::empty(),
            r@.messages =~= Seq::<MessageV>::empty(),
            r@.next_model_id == 1,
            r@.next_conversation_id == 1,
            r@.next_message_id == 1,
            r@.clock == 0,
    {
        Repository {
            db_url,
            models: Vec::new(),
            settings: Vec::new(),
            conversations: Vec::new(),
            messages: Vec::new(),
            next_model_id: 1,
            next_conversation_id: 1,
            next_message_id: 1,
            clock: 0,
        }
    }

    /// The in-memory schema is always current; migration has nothing to do.
    pub fn migrate(&self) -> (r: Result<(), String>)
        ensures
            r is Ok,
    {
        Result::Ok(())
    }

    /// Insert a new model; the store assigns its identity and timestamp.
    pub fn create_model(&mut self, model: Model) -> (r: Result<Model, String>)
        requires
            old(self).wf(),
            old(self).has_room(),
        ensures
            final(self).wf(),
            r matches Ok(m) && m@ == (ModelV {
                id: old(self)@.next_model_id,
                provider: model@.provider,
                api_key: model@.api_key,
                created_at: old(self)@.clock,
            }) && final(self)@ == (StoreV {
                models: old(self)@.models.push(m@),
                next_model_id: old(self)@.next_model_id + 1,
                clock: old(self)@.clock + 1,
                ..old(self)@
            }),
    {
        let created = Model {
            id: self.next_model_id,
            provider: model.provider,
            api_key: model.api_key,
            created_at: self.clock,
        };
        let result = created.duplicate();
        self.models.push(created);
        self.next_model_id = self.next_model_id + 1;
        self.clock = self.clock + 1;
        proof {
            assert(self@.models =~= old(self)@.models.push(result@));
            assert(self@ =~= (StoreV {
                models: old(self)@.models.push(result@),
                next_model_id: old(self)@.next_model_id + 1,
                clock: old(self)@.clock + 1,
                ..old(self)@
            }));
        }
        Result::Ok(result)
    }

    /// All models, in creation order.
    pub fn list_models(&self) -> (r: Result<Vec<Model>, String>)
        ensures
            r matches Ok(v) && deep_models(v@) == self@.models,
    {
        let mut out: Vec<Model> = Vec::new();
        let mut i: usize = 0;
        while i < self.models.len()
            invariant
                i <= self.models.len(),
                out@.len() == i,
                forall|k: int| 0 <= k < i ==> (#[trigger] out@[k])@ == self.models@[k]@,
            decreases self.models.len() - i,
        {
            out.push(self.models[i].duplicate());
            i = i + 1;
        }
        proof {
            assert(deep_models(out@) =~= self@.models);
        }
        Result::Ok(out)
    }

    /// All settings, in creation order.
    pub fn list_settings(&self) -> (r: Result<Vec<Setting>, String>)
        ensures
            r matches Ok(v) && deep_settings(v@) == self@.settings,
    {
        let mut out: Vec<Setting> = Vec::new();
        let mut i: usize = 0;
        while i < self.settings.len()
            invariant
                i <= self.settings.len(),
                out@.len() == i,
                forall|k: int| 0 <= k < i ==> (#[trigger] out@[k])@ == self.settings@[k]@,
            decreases self.settings.len() - i,
        {
            out.push(self.settings[i].duplicate());
            i = i + 1;
        }
        proof {
            assert(deep_settings(out@) =~= self@.settings);
        }
        Result::Ok(out)
    }

    /// Update a setting's value, inserting the row if the key is new.
    pub fn upsert_settings(&mut self, setting: Setting) -> (r: Result<Setting, String>)
        requires
            old(self).wf(),
        ensures
            final(self).wf(),
            r matches Ok(s) && s@ == setting@,
            final(self)@ == (StoreV {
                settings: upsert_model(old(self)@.settings, setting@),
                ..old(self)@
            }),
    {
        let result = setting.duplicate();
        let ghost orig = self@.settings;
        let mut found: bool = false;
        let mut i: usize = 0;
        while i < self.settings.len()
            invariant
                i <= self.settings.len(),
                orig == deep_settings(self.settings@),
                found == has_key(orig.take(i as int), setting@.key),
            decreases self.settings.len() - i,
        {
            let hit = self.settings[i].key == setting.key;
            proof {
                if hit {
                    assert(orig.take(i as int + 1)[i as int].key == setting@.key);
                    assert(has_key(orig.take(i as int + 1), setting@.key));
                } else if has_key(orig.take(i as int + 1), setting@.key) {
                    let w = choose|w: int|
                        0 <= w < i + 1 && #[trigger] orig.take(i as int + 1)[w].key
                            == setting@.key;
                    assert(orig.take(i as int)[w] == orig.take(i as int + 1)[w]);
                    assert(has_key(orig.take(i as int), setting@.key));
                }
            }
            if hit {
                found = true;
            }
            i = i + 1;
        }
        proof {
            assert(orig.take(orig.len() as int) =~= orig);
        }
        if found {
            let mut out: Vec<Setting> = Vec::new();
            let mut j: usize = 0;
            let ghost mapped = orig.map_values(
                |t: SettingV|
                    if t.key == setting@.key {
                        SettingV { key: t.key, value: setting@.value }
                    } else {
                        t
                    },
            );
            while j < self.settings.len()
                invariant
                    j <= self.settings.len(),
                    orig == deep_settings(self.settings@),
                    mapped == orig.map_values(
                        |t: SettingV|
                            if t.key == setting@.key {
                                SettingV { key: t.key, value: setting@.value }
                            } else {
                                t
                            },
                    ),
                    out@.len() == j,
                    forall|k: int| 0 <= k < j ==> (#[trigger] out@[k])@ == mapped[k],
                decreases self.settings.len() - j,
            {
                if self.settings[j].key == setting.key {
                    out.push(
                        Setting { key: self.settings[j].key.clone(), value: setting.value.clone() },
                    );
                } else {
                    out.push(self.settings[j].duplicate());
                }
                j = j + 1;
            }
            self.settings = out;
            proof {
                assert(deep_settings(self.settings@) =~= mapped);
                assert(upsert_model(orig, setting@) == mapped);
                lemma_upsert_preserves_unique(orig, setting@);
                assert(self@ =~= (StoreV {
                    settings: upsert_model(old(self)@.settings, setting@),
                    ..old(self)@
                }));
            }
        } else {
            self.settings.push(setting);
            proof {
                assert(deep_settings(self.settings@) =~= orig.push(setting@));
                assert(upsert_model(orig, setting@) == orig.push(setting@));
                lemma_upsert_preserves_unique(orig, setting@);
                assert(self@ =~= (StoreV {
                    settings: upsert_model(old(self)@.settings, setting@),
                    ..old(self)@
                }));
            }
        }
        Result::Ok(result)
    }

    /// The first stored model with the given id, duplicated.
    fn find_model(&self, id: i32) -> (r: Option<Model>)
        ensures
            match r {
                Option::Some(m) => model_with_id(self@.models, id as int) == Option::Some(m@),
                Option::None => model_with_id(self@.models, id as int) is None,
            },
    {
        let mut i: usize = 0;
        while i < self.models.len()
            invariant
                i <= self.models.len(),
                forall|j: int| 0 <= j < i ==> (#[trigger] self@.models[j]).id != id as int,
            decreases self.models.len() - i,
        {
            if self.models[i].id == id {
                proof {
                    lemma_model_with_id_skip(self@.models, id as int, i as int);
                    assert(self@.models.skip(i as int).first() == self@.models[i as int]);
                }
                return Option::Some(self.models[i].duplicate());
            }
            i = i + 1;
        }
        proof {
            lemma_model_with_id_skip(self@.models, id as int, self@.models.len() as int);
            assert(self@.models.skip(self@.models.len() as int) =~= Seq::<ModelV>::empty());
        }
        Option::None
    }

    /// The first stored conversation with the given id, duplicated.
    fn find_conversation(&self, id: i32) -> (r: Option<Conversation>)
        ensures
            match r {
                Option::Some(c) => conversation_with_id(self@.conversations, id as int)
                    == Option::Some(c@),
                Option::None => conversation_with_id(self@.conversations, id as int) is None,
            },
    {
        let mut i: usize = 0;
        while i < self.conversations.len()
            invariant
                i <= self.conversations.len(),
                forall|j: int| 0 <= j < i ==> (#[trigger] self@.conversations[j]).id != id as int,
            decreases self.conversations.len() - i,
        {
            if self.conversations[i].id == id {
                proof {
                    lemma_conversation_with_id_skip(self@.conversations, id as int, i as int);
                    assert(self@.conversations.skip(i as int).first()
                        == self@.conversations[i as int]);
                }
                return Option::Some(self.conversations[i].duplicate());
            }
            i = i + 1;
        }
        proof {
            lemma_conversation_with_id_skip(
                self@.conversations,
                id as int,
                self@.conversations.len() as int,
            );
            assert(self@.conversations.skip(self@.conversations.len() as int)
                =~= Seq::<ConversationV>::empty());
        }
        Option::None
    }

    /// How many messages one conversation holds.
    fn count_messages(&self, conversation_id: i32) -> (count: u64)
        ensures
            count == msgs_of(self@.messages, conversation_id as int).len(),
    {
        let mut count: u64 = 0;
        let mut i: usize = 0;
        while i < self.messages.len()
            invariant
                i <= self.messages.len(),
                count <= i,
                count == msgs_of(
                    deep_messages(self.messages@).take(i as int),
                    conversation_id as int,
                ).len(),
            decreases self.messages.len() - i,
        {
            proof {
                let pre = deep_messages(self.messages@).take(i as int);
                let el = self.messages@[i as int]@;
                assert(deep_messages(self.messages@).take(i as int + 1) =~= pre.push(el));
                lemma_msgs_of_push(pre, el, conversation_id as int);
            }
            if self.messages[i].conversation_id == conversation_id {
                count = count + 1;
            }
            i = i + 1;
        }
        proof {
            assert(deep_messages(self.messages@).take(self.messages@.len() as int)
                =~= self@.messages);
        }
        count
    }

    /// Insert a new conversation; its options blob starts out empty.
    pub fn create_conversation(&mut self, conversation: Conversation) -> (r: Result<
        Conversation,
        String,
    >)
        requires
            old(self).wf(),
            old(self).has_room(),
        ensures
            final(self).wf(),
            r matches Ok(c) && c@ == (ConversationV {
                id: old(self)@.next_conversation_id,
                model_id: conversation@.model_id,
                subject: conversation@.subject,
                options: Seq::<char>::empty(),
                created_at: old(self)@.clock,
            }) && final(self)@ == (StoreV {
                conversations: old(self)@.conversations.push(c@),
                next_conversation_id: old(self)@.next_conversation_id + 1,
                clock: old(self)@.clock + 1,
                ..old(self)@
            }),
    {
        let created = Conversation {
            id: self.next_conversation_id,
            model_id: conversation.model_id,
            subject: conversation.subject,
            options: "".to_owned(),
            created_at: self.clock,
        };
        let result = created.duplicate();
        proof {
            reveal_strlit("");
            assert(result@.options =~= Seq::<char>::empty());
        }
        self.conversations.push(created);
        self.next_conversation_id = self.next_conversation_id + 1;
        self.clock = self.clock + 1;
        proof {
            assert(self@.conversations =~= old(self)@.conversations.push(result@));
            assert(self@ =~= (StoreV {
                conversations: old(self)@.conversations.push(result@),
                next_conversation_id: old(self)@.next_conversation_id + 1,
                clock: old(self)@.clock + 1,
                ..old(self)@
            }));
        }
        Result::Ok(result)
    }

    /// Create a conversation and its seed message as one unit: either both
    /// become visible or, on failure, neither would. The seed message is
    /// attached to the new conversation and keeps the caller's role and
    /// content.
    pub fn create_conversation_with_message(
        &mut self,
        conversation: Conversation,
        message: Message,
    ) -> (r: Result<(Conversation, Message), String>)
        requires
            old(self).wf(),
            old(self).has_room(),
        ensures
            final(self).wf(),
            r matches Ok(pair) && pair.0@ == (ConversationV {
                id: old(self)@.next_conversation_id,
                model_id: conversation@.model_id,
                subject: conversation@.subject,
                options: Seq::<char>::empty(),
                created_at: old(self)@.clock,
            }) && pair.1@ == (MessageV {
                id: old(self)@.next_message_id,
                conversation_id: old(self)@.next_conversation_id,
                role: message@.role,
                content: message@.content,
                created_at: old(self)@.clock,
            }) && final(self)@ == (StoreV {
                conversations: old(self)@.conversations.push(pair.0@),
                messages: old(self)@.messages.push(pair.1@),
                next_conversation_id: old(self)@.next_conversation_id + 1,
                next_message_id: old(self)@.next_message_id + 1,
                clock: old(self)@.clock + 1,
                ..old(self)@
            }),
    {
        let created_conversation = Conversation {
            id: self.next_conversation_id,
            model_id: conversation.model_id,
            subject: conversation.subject,
            options: "".to_owned(),
            created_at: self.clock,
        };
        let created_message = Message {
            id: self.next_message_id,
            conversation_id: self.next_conversation_id,
            role: message.role,
            content: message.content,
            created_at: self.clock,
        };
        let result = (created_conversation.duplicate(), created_message.duplicate());
        proof {
            reveal_strlit("");
            assert(result.0@.options =~= Seq::<char>::empty());
        }
        self.conversations.push(created_conversation);
        self.messages.push(created_message);
        self.next_conversation_id = self.next_conversation_id + 1;
        self.next_message_id = self.next_message_id + 1;
        self.clock = self.clock + 1;
        proof {
            assert(self@.conversations =~= old(self)@.conversations.push(result.0@));
            assert(self@.messages =~= old(self)@.messages.push(result.1@));
            assert(self@ =~= (StoreV {
                conversations: old(self)@.conversations.push(result.0@),
                messages: old(self)@.messages.push(result.1@),
                next_conversation_id: old(self)@.next_conversation_id + 1,
                next_message_id: old(self)@.next_message_id + 1,
                clock: old(self)@.clock + 1,
                ..old(self)@
            }));
        }
        Result::Ok(result)
    }

    /// Append a message to a conversation. Role ordering is not validated
    /// here; the orchestrator checks it before a bot reply.
    pub fn create_message(&mut self, message: NewMessage) -> (r: Result<Message, String>)
        requires
            old(self).wf(),
            old(self).has_room(),
        ensures
            final(self).wf(),
            r matches Ok(m) && m@ == (MessageV {
                id: old(self)@.next_message_id,
                conversation_id: message@.conversation_id,
                role: message@.role,
                content: message@.content,
                created_at: old(self)@.clock,
            }) && final(self)@ == (StoreV {
                messages: old(self)@.messages.push(m@),
                next_message_id: old(self)@.next_message_id + 1,
                clock: old(self)@.clock + 1,
                ..old(self)@
            }),
    {
        let created = Message {
            id: self.next_message_id,
            conversation_id: message.conversation_id,
            role: message.role,
            content: message.content,
            created_at: self.clock,
        };
        let result = created.duplicate();
        self.messages.push(created);
        self.next_message_id = self.next_message_id + 1;
        self.clock = self.clock + 1;
        proof {
            assert(self@.messages =~= old(self)@.messages.push(result@));
            assert(self@ =~= (StoreV {
                messages: old(self)@.messages.push(result@),
                next_message_id: old(self)@.next_message_id + 1,
                clock: old(self)@.clock + 1,
                ..old(self)@
            }));
        }
        Result::Ok(result)
    }

    /// All messages of one conversation, in creation order.
    pub fn list_messages(&self, conversation_id: i32) -> (r: Result<Vec<Message>, String>)
        ensures
            r matches Ok(v) && deep_messages(v@) == msgs_of(
                self@.messages,
                conversation_id as int,
            ),
    {
        let mut out: Vec<Message> = Vec::new();
        let mut i: usize = 0;
        while i < self.messages.len()
            invariant
                i <= self.messages.len(),
                deep_messages(out@) == msgs_of(
                    deep_messages(self.messages@).take(i as int),
                    conversation_id as int,
                ),
            decreases self.messages.len() - i,
        {
            proof {
                let pre = deep_messages(self.messages@).take(i as int);
                let el = self.messages@[i as int]@;
                assert(deep_messages(self.messages@).take(i as int + 1) =~= pre.push(el));
                lemma_msgs_of_push(pre, el, conversation_id as int);
            }
            if self.messages[i].conversation_id == conversation_id {
                let dup = self.messages[i].duplicate();
                let ghost dv = dup@;
                let ghost prev = out@;
                out.push(dup);
                proof {
                    assert(deep_messages(out@) =~= deep_messages(prev).push(dv));
                }
            }
            i = i + 1;
        }
        proof {
            assert(deep_messages(self.messages@).take(self.messages@.len() as int)
                =~= self@.messages);
        }
        Result::Ok(out)
    }

    /// The newest message of a conversation; fails exactly when the
    /// conversation has no messages.
    pub fn get_last_message(&self, conversation_id: i32) -> (r: Result<Message, String>)
        ensures
            ({
                let ms = msgs_of(self@.messages, conversation_id as int);
                match r {
                    Result::Ok(m) => ms.len() > 0 && m@ == ms.last(),
                    Result::Err(e) => ms.len() == 0 && e@ == "Not found"@,
                }
            }),
    {
        let msgs = match self.list_messages(conversation_id) {
            Result::Ok(v) => v,
            Result::Err(e) => {
                return Result::Err(e);
            },
        };
        if msgs.len() == 0 {
            Result::Err("Not found".to_owned())
        } else {
            Result::Ok(msgs[msgs.len() - 1].duplicate())
        }
    }

    /// The model configuration of the conversation a message belongs to.
    pub fn get_model_of_message(&self, message: &Message) -> (r: Result<Model, String>)
        ensures
            match conversation_with_id(self@.conversations, message@.conversation_id) {
                Option::Some(c) => match model_with_id(self@.models, c.model_id) {
                    Option::Some(m) => r matches Ok(x) && x@ == m,
                    Option::None => r matches Err(e) && e@ == "Not found"@,
                },
                Option::None => r matches Err(e) && e@ == "Not found"@,
            },
    {
        match self.find_conversation(message.conversation_id) {
            Option::Some(c) => match self.find_model(c.model_id) {
                Option::Some(m) => Result::Ok(m),
                Option::None => Result::Err("Not found".to_owned()),
            },
            Option::None => Result::Err("Not found".to_owned()),
        }
    }

    /// The stored provider options of a conversation.
    pub fn get_conversation_options(&self, conversation_id: i32) -> (r: Result<
        ProviderOptions,
        String,
    >)
        ensures
            match conversation_with_id(self@.conversations, conversation_id as int) {
                Option::Some(c) => r matches Ok(o) && o@ == c.options,
                Option::None => r matches Err(e) && e@ == "Not found"@,
            },
    {
        match self.find_conversation(conversation_id) {
            Option::Some(c) => Result::Ok(ProviderOptions { raw: c.options }),
            Option::None => Result::Err("Not found".to_owned()),
        }
    }

    /// The model configuration a conversation refers to.
    pub fn get_conversation_config(&self, conversation_id: i32) -> (r: Result<Model, String>)
        ensures
            match conversation_with_id(self@.conversations, conversation_id as int) {
                Option::Some(c) => match model_with_id(self@.models, c.model_id) {
                    Option::Some(m) => r matches Ok(x) && x@ == m,
                    Option::None => r matches Err(e) && e@ == "Not found"@,
                },
                Option::None => r matches Err(e) && e@ == "Not found"@,
            },
    {
        match self.find_conversation(conversation_id) {
            Option::Some(c) => match self.find_model(c.model_id) {
                Option::Some(m) => Result::Ok(m),
                Option::None => Result::Err("Not found".to_owned()),
            },
            Option::None => Result::Err("Not found".to_owned()),
        }
    }

    /// Replace a conversation's options blob; returns the stored value.
    /// Fails exactly when the conversation does not exist, leaving the store
    /// unchanged.
    pub fn update_conversation_options(&mut self, conversation_id: i32, options: String) -> (r:
        Result<ProviderOptions, String>)
        requires
            old(self).wf(),
        ensures
            final(self).wf(),
            match conversation_with_id(old(self)@.conversations, conversation_id as int) {
                Option::Some(_) => r matches Ok(o) && o@ == options@ && final(self)@ == (StoreV {
                    conversations: set_options(
                        old(self)@.conversations,
                        conversation_id as int,
                        options@,
                    ),
                    ..old(self)@
                }),
                Option::None => r matches Err(e) && e@ == "Not found"@ && final(self)@ == old(
                    self,
                )@,
            },
    {
        let hit = match self.find_conversation(conversation_id) {
            Option::Some(_) => true,
            Option::None => false,
        };
        if !hit {
            return Result::Err("Not found".to_owned());
        }
        let ghost orig = self@.conversations;
        let ghost mapped = set_options(orig, conversation_id as int, options@);
        let mut out: Vec<Conversation> = Vec::new();
        let mut j: usize = 0;
        while j < self.conversations.len()
            invariant
                j <= self.conversations.len(),
                orig == deep_conversations(self.conversations@),
                mapped == set_options(orig, conversation_id as int, options@),
                out@.len() == j,
                forall|k: int| 0 <= k < j ==> (#[trigger] out@[k])@ == mapped[k],
            decreases self.conversations.len() - j,
        {
            if self.conversations[j].id == conversation_id {
                out.push(
                    Conversation {
                        id: self.conversations[j].id,
                        model_id: self.conversations[j].model_id,
                        subject: self.conversations[j].subject.clone(),
                        options: options.clone(),
                        created_at: self.conversations[j].created_at,
                    },
                );
            } else {
                out.push(self.conversations[j].duplicate());
            }
            j = j + 1;
        }
        self.conversations = out;
        proof {
            assert(deep_conversations(self.conversations@) =~= mapped);
            assert(forall|k: int| 0 <= k < mapped.len() ==> (#[trigger] mapped[k]).id == orig[k].id);
            assert(self@ =~= (StoreV {
                conversations: set_options(old(self)@.conversations, conversation_id as int, options@),
                ..old(self)@
            }));
        }
        Result::Ok(ProviderOptions { raw: options })
    }

    /// The conversation list: each conversation joined to its model's
    /// provider name and to its message count, in creation order. A
    /// conversation with no messages still appears; one whose model row is
    /// missing does not.
    pub fn list_conversations(&self) -> (r: Result<Vec<ConversationListItem>, String>)
        ensures
            r matches Ok(v) && deep_items(v@) == conversation_items(
                self@.conversations,
                self@.models,
                self@.messages,
            ),
    {
        let mut out: Vec<ConversationListItem> = Vec::new();
        let mut i: usize = 0;
        while i < self.conversations.len()
            invariant
                i <= self.conversations.len(),
                deep_items(out@) == conversation_items(
                    deep_conversations(self.conversations@).take(i as int),
                    self@.models,
                    self@.messages,
                ),
            decreases self.conversations.len() - i,
        {
            proof {
                let pre = deep_conversations(self.conversations@).take(i as int);
                let el = self.conversations@[i as int]@;
                assert(deep_conversations(self.conversations@).take(i as int + 1)
                    =~= pre.push(el));
                lemma_conversation_items_push(pre, el, self@.models, self@.messages);
            }
            match self.find_model(self.conversations[i].model_id) {
                Option::Some(m) => {
                    let count = self.count_messages(self.conversations[i].id);
                    let item = ConversationListItem {
                        id: self.conversations[i].id,
                        model_id: self.conversations[i].model_id,
                        subject: self.conversations[i].subject.clone(),
                        created_at: self.conversations[i].created_at,
                        model_provider: m.provider,
                        message_count: count,
                    };
                    let ghost iv = item@;
                    let ghost prev = out@;
                    out.push(item);
                    proof {
                        assert(deep_items(out@) =~= deep_items(prev).push(iv));
                        assert(iv =~= item_of(
                            self.conversations@[i as int]@,
                            model_with_id(
                                self@.models,
                                self.conversations@[i as int]@.model_id,
                            )->Some_0,
                            msgs_of(
                                self@.messages,
                                self.conversations@[i as int]@.id,
                            ).len() as int,
                        ));
                    }
                },
                Option::None => {},
            }
            i = i + 1;
        }
        proof {
            assert(deep_conversations(self.conversations@).take(self.conversations@.len() as int)
                =~= self@.conversations);
        }
        Result::Ok(out)
    }
}

/// Builds a `Repository` once a database location has been supplied.
pub struct Builder {
    pub db_url: Option<String>,
}

impl Default for Builder {
    fn default() -> (r: Builder)
        ensures
            r.db_url is None,
    {
        Builder { db_url: Option::None }
    }
}

impl Builder {
    pub fn set_db_url(self, db_url: String) -> (r: Builder)
        ensures
            r.db_url matches Some(u) && u@ == db_url@,
    {
        Builder { db_url: Option::Some(db_url) }
    }

    /// Fails exactly when no database location was supplied; otherwise hands
    /// out an empty, well-formed store.
    pub fn build(self) -> (r: Result<Repository, String>)
        ensures
            match self.db_url {
                Option::None => r matches Err(e) && e@ == "DB url is not set"@,
                Option::Some(_) => r matches Ok(repo) && repo.wf() && repo@ == (StoreV {
                    models: Seq::<ModelV>::empty(),
                    settings: Seq::<SettingV>::empty(),
                    conversations: Seq::<ConversationV>::empty(),
                    messages: Seq::<MessageV>::empty(),
                    next_model_id: 1,
                    next_conversation_id: 1,
                    next_message_id: 1,
                    clock: 0,
                }) && repo.has_room(),
            },
    {
        match self.db_url {
            Option::None => Result::Err("DB url is not set".to_owned()),
            Option::Some(url) => Result::Ok(Repository::empty(url)),
        }
    }
}

} // verus!
