//! The data-access layer: client records, the keys and inputs that address
//! and change them, and the in-memory store that keeps them.

use vstd::prelude::*;

use vstd::string::StringExecFns;

use crate::store::DETAIL_CLOCK_EXHAUSTED;
use crate::store::DETAIL_CPF_CNPJ_TAKEN;
use crate::store::DETAIL_EMAIL_TAKEN;
use crate::store::DETAIL_IDS_EXHAUSTED;
use crate::store::DETAIL_RECORD_MISSING;
use crate::ident::render_id;
use crate::store::StoreModel;
use crate::timestamp::Instant;
use crate::timestamp::Timestamp;

verus! {

/// An optional text as an optional sequence of characters.
pub open spec fn text_opt(o: Option<String>) -> Option<Seq<char>> {
    match o {
        Some(s) => Some(s@),
        None => None,
    }
}

/// A copy of an optional text.
fn clone_text_opt(o: &Option<String>) -> (r: Option<String>)
    ensures
        r == *o,
{
    match o {
        Some(s) => Some(s.clone()),
        None => None,
    }
}

/// Whether two optional texts hold the same characters, or both nothing.
fn text_opt_eq(a: &Option<String>, b: &Option<String>) -> (r: bool)
    ensures
        r == (text_opt(*a) == text_opt(*b)),
{
    match (a, b) {
        (Some(x), Some(y)) => *x == *y,
        (None, None) => true,
        _ => false,
    }
}

/// Which way a listing is ordered.
#[derive(Clone, Copy, Debug, PartialEq, Eq)]
pub enum Direction {
    Asc,
    Desc,
}

/// A client record as the store keeps it.
#[derive(Debug, PartialEq, Eq)]
pub struct Cliente {
    pub id: String,
    pub nome: String,
    pub cpf_cnpj: Option<String>,
    pub email: Option<String>,
    pub telefone: Option<String>,
    pub endereco: Option<String>,
    pub observacao: Option<String>,
    pub created_at: Timestamp,
    pub updated_at: Timestamp,
}

/// What a [`Cliente`] is: its texts as sequences of characters, its times as
/// instants.
pub struct ClienteModel {
    pub id: Seq<char>,
    pub nome: Seq<char>,
    pub cpf_cnpj: Option<Seq<char>>,
    pub email: Option<Seq<char>>,
    pub telefone: Option<Seq<char>>,
    pub endereco: Option<Seq<char>>,
    pub observacao: Option<Seq<char>>,
    pub created_at: Instant,
    pub updated_at: Instant,
}

impl View for Cliente {
    type V = ClienteModel;

    open spec fn view(&self) -> ClienteModel {
        ClienteModel {
            id: self.id@,
            nome: self.nome@,
            cpf_cnpj: text_opt(self.cpf_cnpj),
            email: text_opt(self.email),
            telefone: text_opt(self.telefone),
            endereco: text_opt(self.endereco),
            observacao: text_opt(self.observacao),
            created_at: self.created_at@,
            updated_at: self.updated_at@,
        }
    }
}

impl Clone for Cliente {
    fn clone(&self) -> (r: Self)
        ensures
            r == *self,
    {
        Cliente {
            id: self.id.clone(),
            nome: self.nome.clone(),
            cpf_cnpj: clone_text_opt(&self.cpf_cnpj),
            email: clone_text_opt(&self.email),
            telefone: clone_text_opt(&self.telefone),
            endereco: clone_text_opt(&self.endereco),
            observacao: clone_text_opt(&self.observacao),
            created_at: self.created_at,
            updated_at: self.updated_at,
        }
    }
}

/// The key that addresses one record: its identifier, its tax id or its
/// email. The identifier counts where it is given, then the tax id, then the
/// email; a key with none of them addresses nothing.
#[derive(Debug, PartialEq, Eq)]
pub struct ClienteWhereUniqueInput {
    pub id: Option<String>,
    pub cpf_cnpj: Option<String>,
    pub email: Option<String>,
}

/// What a [`ClienteWhereUniqueInput`] is.
pub struct KeyModel {
    pub id: Option<Seq<char>>,
    pub cpf_cnpj: Option<Seq<char>>,
    pub email: Option<Seq<char>>,
}

impl View for ClienteWhereUniqueInput {
    type V = KeyModel;

    open spec fn view(&self) -> KeyModel {
        KeyModel {
            id: text_opt(self.id),
            cpf_cnpj: text_opt(self.cpf_cnpj),
            email: text_opt(self.email),
        }
    }
}

impl KeyModel {
    /// The key that addresses by identifier alone.
    pub open spec fn by_id(id: Seq<char>) -> KeyModel {
        KeyModel { id: Some(id), cpf_cnpj: None, email: None }
    }

    /// Whether the key addresses the record `r`.
    pub open spec fn matches(self, r: ClienteModel) -> bool {
        match self.id {
            Some(id) => r.id == id,
            None => match self.cpf_cnpj {
                Some(cpf) => r.cpf_cnpj == Some(cpf),
                None => match self.email {
                    Some(email) => r.email == Some(email),
                    None => false,
                },
            },
        }
    }
}

impl ClienteWhereUniqueInput {
    /// The key that addresses by identifier alone.
    pub fn by_id(id: String) -> (key: ClienteWhereUniqueInput)
        ensures
            key@ == KeyModel::by_id(id@),
    {
        ClienteWhereUniqueInput { id: Some(id), cpf_cnpj: None, email: None }
    }

    /// Whether the key addresses `record`.
    pub fn matches(&self, record: &Cliente) -> (hit: bool)
        ensures
            hit == self@.matches(record@),
    {
        match &self.id {
            Some(id) => record.id == *id,
            None => match &self.cpf_cnpj {
                Some(_) => text_opt_eq(&record.cpf_cnpj, &self.cpf_cnpj),
                None => match &self.email {
                    Some(_) => text_opt_eq(&record.email, &self.email),
                    None => false,
                },
            },
        }
    }
}

/// The fields of a record to create. The store assigns the rest.
#[derive(Debug, PartialEq, Eq)]
pub struct ClienteCreateInput {
    pub nome: String,
    pub cpf_cnpj: Option<String>,
    pub email: Option<String>,
    pub telefone: Option<String>,
    pub endereco: Option<String>,
    pub observacao: Option<String>,
}

/// What a [`ClienteCreateInput`] is.
pub struct CreateModel {
    pub nome: Seq<char>,
    pub cpf_cnpj: Option<Seq<char>>,
    pub email: Option<Seq<char>>,
    pub telefone: Option<Seq<char>>,
    pub endereco: Option<Seq<char>>,
    pub observacao: Option<Seq<char>>,
}

impl View for ClienteCreateInput {
    type V = CreateModel;

    open spec fn view(&self) -> CreateModel {
        CreateModel {
            nome: self.nome@,
            cpf_cnpj: text_opt(self.cpf_cnpj),
            email: text_opt(self.email),
            telefone: text_opt(self.telefone),
            endereco: text_opt(self.endereco),
            observacao: text_opt(self.observacao),
        }
    }
}

/// The fields of a record to change: a field that is given replaces the
/// record's, one that is not leaves it as it was.
#[derive(Debug, PartialEq, Eq)]
pub struct ClienteUpdateInput {
    pub nome: Option<String>,
    pub cpf_cnpj: Option<String>,
    pub email: Option<String>,
    pub telefone: Option<String>,
    pub endereco: Option<String>,
    pub observacao: Option<String>,
}

/// What a [`ClienteUpdateInput`] is.
pub struct UpdateModel {
    pub nome: Option<Seq<char>>,
    pub cpf_cnpj: Option<Seq<char>>,
    pub email: Option<Seq<char>>,
    pub telefone: Option<Seq<char>>,
    pub endereco: Option<Seq<char>>,
    pub observacao: Option<Seq<char>>,
}

impl View for ClienteUpdateInput {
    type V = UpdateModel;

    open spec fn view(&self) -> UpdateModel {
        UpdateModel {
            nome: text_opt(self.nome),
            cpf_cnpj: text_opt(self.cpf_cnpj),
            email: text_opt(self.email),
            telefone: text_opt(self.telefone),
            endereco: text_opt(self.endereco),
            observacao: text_opt(self.observacao),
        }
    }
}

/// The models of a sequence of records, in the same order.
pub open spec fn models(records: Seq<Cliente>) -> Seq<ClienteModel> {
    records.map_values(|c: Cliente| c@)
}

/// The model of an optional record.
pub open spec fn model_opt(record: Option<Cliente>) -> Option<ClienteModel> {
    match record {
        Some(c) => Some(c@),
        None => None,
    }
}

/// The position that a search skips, as the model counts it: none is -1.
pub open spec fn skip_index(skip: Option<usize>) -> int {
    match skip {
        Some(i) => i as int,
        None => -1,
    }
}

/// The client store, in memory. It keeps its records in the order of their
/// creation and issues the identifiers "1", "2", ... in that order; an
/// identifier is never issued twice, whatever is deleted.
pub struct ClienteActions {
    registros: Vec<Cliente>,
    emitidos: u64,
}

impl View for ClienteActions {
    type V = StoreModel;

    closed spec fn view(&self) -> StoreModel {
        StoreModel { records: models(self.registros@), issued: self.emitidos as nat }
    }
}

impl ClienteActions {
    /// The store's invariant holds.
    pub open spec fn wf(&self) -> bool {
        self@.wf()
    }

    /// A store without records.
    pub fn new() -> (store: ClienteActions)
        ensures
            store.wf(),
            store@ == StoreModel::empty(),
    {
        let store = ClienteActions { registros: Vec::new(), emitidos: 0 };
        assert(store@.records =~= Seq::empty());
        store
    }

    /// The position of the record that `key` addresses.
    fn position(&self, key: &ClienteWhereUniqueInput) -> (r: Option<usize>)
        ensures
            match r {
                Some(i) => self@.locate(key@) == Some(i as int) && i < self.registros@.len(),
                None => self@.locate(key@) is None,
            },
    {
        let mut i: usize = 0;
        while i < self.registros.len()
            invariant
                0 <= i <= self.registros@.len(),
                forall|j: int| 0 <= j < i ==> !key@.matches(#[trigger] self@.records[j]),
            decreases self.registros@.len() - i,
        {
            if key.matches(&self.registros[i]) {
                proof {
                    assert(self@.is_first_hit(key@, i as int));
                    self@.lemma_first_hit_is_located(key@, i as int);
                }
                return Some(i);
            }
            i += 1;
        }
        proof {
            self@.lemma_locate(key@);
        }
        None
    }

    /// Whether a record other than the one at `skip` carries the tax id `cpf`.
    fn cpf_in_use(&self, cpf: &Option<String>, skip: Option<usize>) -> (r: bool)
        ensures
            r == self@.cpf_taken(text_opt(*cpf), skip_index(skip)),
    {
        if cpf.is_none() {
            return false;
        }
        let mut i: usize = 0;
        while i < self.registros.len()
            invariant
                0 <= i <= self.registros@.len(),
                cpf is Some,
                forall|j: int|
                    0 <= j < i && j != skip_index(skip) ==> (#[trigger] self@.records[j]).cpf_cnpj
                        != text_opt(*cpf),
            decreases self.registros@.len() - i,
        {
            let skipped = match skip {
                Some(k) => k == i,
                None => false,
            };
            if !skipped && text_opt_eq(&self.registros[i].cpf_cnpj, cpf) {
                assert(self@.records[i as int].cpf_cnpj == text_opt(*cpf));
                return true;
            }
            i += 1;
        }
        false
    }

    /// Whether a record other than the one at `skip` carries the email `email`.
    fn email_in_use(&self, email: &Option<String>, skip: Option<usize>) -> (r: bool)
        ensures
            r == self@.email_taken(text_opt(*email), skip_index(skip)),
    {
        if email.is_none() {
            return false;
        }
        let mut i: usize = 0;
        while i < self.registros.len()
            invariant
                0 <= i <= self.registros@.len(),
                email is Some,
                forall|j: int|
                    0 <= j < i && j != skip_index(skip) ==> (#[trigger] self@.records[j]).email
                        != text_opt(*email),
            decreases self.registros@.len() - i,
        {
            let skipped = match skip {
                Some(k) => k == i,
                None => false,
            };
            if !skipped && text_opt_eq(&self.registros[i].email, email) {
                assert(self@.records[i as int].email == text_opt(*email));
                return true;
            }
            i += 1;
        }
        false
    }

    /// Every record, oldest first. The order is the same at every call.
    pub fn find_many(&self) -> (all: Vec<Cliente>)
        ensures
            models(all@) == self@.records,
    {
        let mut all: Vec<Cliente> = Vec::new();
        let mut i: usize = 0;
        while i < self.registros.len()
            invariant
                0 <= i <= self.registros@.len(),
                all@ == self.registros@.take(i as int),
            decreases self.registros@.len() - i,
        {
            all.push(self.registros[i].clone());
            assert(all@ =~= self.registros@.take(i + 1));
            i += 1;
        }
        assert(all@ =~= self.registros@);
        all
    }

    /// The record that `key` addresses, or nothing where there is none. That
    /// no record matches is no fault.
    pub fn find_unique(&self, key: ClienteWhereUniqueInput) -> (found: Option<Cliente>)
        ensures
            model_opt(found) == self@.find(key@),
    {
        match self.position(&key) {
            Some(i) => Some(self.registros[i].clone()),
            None => None,
        }
    }

    /// Creates a record from `data` at clock reading `now` and returns it.
    /// The store assigns the next identifier and stamps both times `now`.
    /// It refuses, with the fault's detail and no change, a tax id or an email
    /// that another record carries, and a creation when no identifier is left.
    pub fn create(
        &mut self,
        data: ClienteCreateInput,
        now: Timestamp,
    ) -> (r: Result<Cliente, String>)
        requires
            old(self).wf(),
        ensures
            final(self).wf(),
            match r {
                Ok(c) => {
                    &&& old(self)@.create_refusal(data@) is None
                    &&& c@ == old(self)@.created(data@, now@)
                    &&& final(self)@ == old(self)@.after_create(data@, now@)
                },
                Err(e) => {
                    &&& old(self)@.create_refusal(data@) == Some(e@)
                    &&& final(self)@ == old(self)@
                },
            },
    {
        if self.cpf_in_use(&data.cpf_cnpj, None) {
            return Err(String::from_str(DETAIL_CPF_CNPJ_TAKEN));
        }
        if self.email_in_use(&data.email, None) {
            return Err(String::from_str(DETAIL_EMAIL_TAKEN));
        }
        if self.emitidos == u64::MAX {
            return Err(String::from_str(DETAIL_IDS_EXHAUSTED));
        }
        proof {
            use_type_invariant(&now);
            self@.lemma_create_keeps_wf(data@, now@);
        }
        let number = self.emitidos + 1;
        let record = Cliente {
            id: render_id(number),
            nome: data.nome,
            cpf_cnpj: data.cpf_cnpj,
            email: data.email,
            telefone: data.telefone,
            endereco: data.endereco,
            observacao: data.observacao,
            created_at: now,
            updated_at: now,
        };
        let copy = record.clone();
        self.registros.push(record);
        self.emitidos = number;
        assert(self@.records =~= old(self)@.after_create(data@, now@).records);
        Ok(copy)
    }

    /// Changes the record that `key` addresses, at clock reading `now`, and
    /// returns it as it then is. Fields that `data` gives replace the
    /// record's; the others, the identifier and the creation time stay; the
    /// update time advances. The store refuses, with the fault's detail and no
    /// change, a key that addresses no record, a new tax id or email that
    /// another record carries, and an update time that cannot advance.
    pub fn update(
        &mut self,
        key: ClienteWhereUniqueInput,
        data: ClienteUpdateInput,
        now: Timestamp,
    ) -> (r: Result<Cliente, String>)
        requires
            old(self).wf(),
        ensures
            final(self).wf(),
            match r {
                Ok(c) => {
                    &&& old(self)@.update_refusal(key@, data@, now@) is None
                    &&& c@ == old(self)@.updated(key@, data@, now@)
                    &&& final(self)@ == old(self)@.after_update(key@, data@, now@)
                },
                Err(e) => {
                    &&& old(self)@.update_refusal(key@, data@, now@) == Some(e@)
                    &&& final(self)@ == old(self)@
                },
            },
    {
        let i = match self.position(&key) {
            Some(i) => i,
            None => {
                return Err(String::from_str(DETAIL_RECORD_MISSING));
            },
        };
        if self.cpf_in_use(&data.cpf_cnpj, Some(i)) {
            return Err(String::from_str(DETAIL_CPF_CNPJ_TAKEN));
        }
        if self.email_in_use(&data.email, Some(i)) {
            return Err(String::from_str(DETAIL_EMAIL_TAKEN));
        }
        let before = self.registros[i].clone();
        let stamp = match Timestamp::stamp_after(before.updated_at, now) {
            Some(stamp) => stamp,
            None => {
                return Err(String::from_str(DETAIL_CLOCK_EXHAUSTED));
            },
        };
        proof {
            use_type_invariant(&now);
            self@.lemma_update_keeps_wf(key@, data@, now@);
        }
        let record = Cliente {
            id: before.id,
            nome: match data.nome {
                Some(nome) => nome,
                None => before.nome,
            },
            cpf_cnpj: match data.cpf_cnpj {
                Some(cpf) => Some(cpf),
                None => before.cpf_cnpj,
            },
            email: match data.email {
                Some(email) => Some(email),
                None => before.email,
            },
            telefone: match data.telefone {
                Some(telefone) => Some(telefone),
                None => before.telefone,
            },
            endereco: match data.endereco {
                Some(endereco) => Some(endereco),
                None => before.endereco,
            },
            observacao: match data.observacao {
                Some(observacao) => Some(observacao),
                None => before.observacao,
            },
            created_at: before.created_at,
            updated_at: stamp,
        };
        let copy = record.clone();
        self.registros.set(i, record);
        assert(self@.records =~= old(self)@.after_update(key@, data@, now@).records);
        Ok(copy)
    }

    /// Deletes the record that `key` addresses and returns it. The other
    /// records keep their order. The store refuses, with the fault's detail and
    /// no change, a key that addresses no record.
    pub fn delete(&mut self, key: ClienteWhereUniqueInput) -> (r: Result<Cliente, String>)
        requires
            old(self).wf(),
        ensures
            final(self).wf(),
            match r {
                Ok(c) => {
                    &&& old(self)@.find(key@) == Some(c@)
                    &&& final(self)@ == old(self)@.after_delete(key@)
                },
                Err(e) => {
                    &&& old(self)@.delete_refusal(key@) == Some(e@)
                    &&& final(self)@ == old(self)@
                },
            },
    {
        let i = match self.position(&key) {
            Some(i) => i,
            None => {
                return Err(String::from_str(DETAIL_RECORD_MISSING));
            },
        };
        proof {
            self@.lemma_delete_keeps_wf(key@);
        }
        let record = self.registros.remove(i);
        assert(self@.records =~= old(self)@.after_delete(key@).records);
        Ok(record)
    }
}

/// A settings entry: a value under a key.
#[derive(Debug, PartialEq, Eq)]
pub struct Configuracoes {
    pub id: String,
    pub chave: String,
    pub valor: String,
    pub created_at: Timestamp,
    pub updated_at: Timestamp,
}

/// What a [`Configuracoes`] is.
pub struct ConfiguracoesModel {
    pub id: Seq<char>,
    pub chave: Seq<char>,
    pub valor: Seq<char>,
    pub created_at: Instant,
    pub updated_at: Instant,
}

impl View for Configuracoes {
    type V = ConfiguracoesModel;

    open spec fn view(&self) -> ConfiguracoesModel {
        ConfiguracoesModel {
            id: self.id@,
            chave: self.chave@,
            valor: self.valor@,
            created_at: self.created_at@,
            updated_at: self.updated_at@,
        }
    }
}

impl Clone for Configuracoes {
    fn clone(&self) -> (r: Self)
        ensures
            r == *self,
    {
        Configuracoes {
            id: self.id.clone(),
            chave: self.chave.clone(),
            valor: self.valor.clone(),
            created_at: self.created_at,
            updated_at: self.updated_at,
        }
    }
}

/// The models of a sequence of settings entries, in the same order.
pub open spec fn settings_models(entries: Seq<Configuracoes>) -> Seq<ConfiguracoesModel> {
    entries.map_values(|c: Configuracoes| c@)
}

/// The settings store. It can be listed; nothing writes to it.
pub struct ConfiguracoesActions {
    entradas: Vec<Configuracoes>,
}

impl View for ConfiguracoesActions {
    type V = Seq<ConfiguracoesModel>;

    closed spec fn view(&self) -> Seq<ConfiguracoesModel> {
        settings_models(self.entradas@)
    }
}

impl ConfiguracoesActions {
    /// A settings store without entries.
    pub fn new() -> (store: ConfiguracoesActions)
        ensures
            store@ == Seq::<ConfiguracoesModel>::empty(),
    {
        let store = ConfiguracoesActions { entradas: Vec::new() };
        assert(store@ =~= Seq::empty());
        store
    }

    /// Every settings entry, in the store's order.
    pub fn find_many(&self) -> (all: Vec<Configuracoes>)
        ensures
            settings_models(all@) == self@,
    {
        let mut all: Vec<Configuracoes> = Vec::new();
        let mut i: usize = 0;
        while i < self.entradas.len()
            invariant
                0 <= i <= self.entradas@.len(),
                all@ == self.entradas@.take(i as int),
            decreases self.entradas@.len() - i,
        {
            all.push(self.entradas[i].clone());
            assert(all@ =~= self.entradas@.take(i + 1));
            i += 1;
        }
        assert(all@ =~= self.entradas@);
        all
    }
}

/// What a [`PrismaClient`] holds.
pub struct PrismaModel {
    pub clientes: StoreModel,
    pub configuracoes: Seq<ConfiguracoesModel>,
}

impl PrismaModel {
    /// The client as it is made: no record, no settings entry.
    pub open spec fn empty() -> PrismaModel {
        PrismaModel { clientes: StoreModel::empty(), configuracoes: Seq::empty() }
    }
}

/// The data-access client: the client store and the settings store.
pub struct PrismaClient {
    clientes: ClienteActions,
    configuracoes: ConfiguracoesActions,
}

impl View for PrismaClient {
    type V = PrismaModel;

    closed spec fn view(&self) -> PrismaModel {
        PrismaModel { clientes: self.clientes@, configuracoes: self.configuracoes@ }
    }
}

impl PrismaClient {
    /// The client store's invariant holds.
    pub open spec fn wf(&self) -> bool {
        self@.clientes.wf()
    }

    /// A client over empty stores.
    pub fn new() -> (client: PrismaClient)
        ensures
            client.wf(),
            client@ == PrismaModel::empty(),
    {
        PrismaClient { clientes: ClienteActions::new(), configuracoes: ConfiguracoesActions::new() }
    }

    /// The builder of clients.
    pub fn _builder() -> PrismaClientBuilder {
        PrismaClientBuilder {}
    }

    /// The client store, to read.
    pub fn cliente(&self) -> (store: &ClienteActions)
        ensures
            store@ == self@.clientes,
    {
        &self.clientes
    }

    /// The client store, to change.
    pub fn cliente_mut(&mut self) -> (store: &mut ClienteActions)
        ensures
            store@ == old(self)@.clientes,
            final(self)@ == (PrismaModel {
                clientes: final(store)@,
                configuracoes: old(self)@.configuracoes,
            }),
    {
        &mut self.clientes
    }

    /// The settings store.
    pub fn configuracoes(&self) -> (store: &ConfiguracoesActions)
        ensures
            store@ == self@.configuracoes,
    {
        &self.configuracoes
    }
}

/// Builds data-access clients.
#[derive(Clone, Copy, Debug)]
pub struct PrismaClientBuilder {}

impl PrismaClientBuilder {
    /// A client over empty stores.
    pub fn build() -> (client: PrismaClient)
        ensures
            client.wf(),
            client@ == PrismaModel::empty(),
    {
        PrismaClient::new()
    }
}

} // verus!
