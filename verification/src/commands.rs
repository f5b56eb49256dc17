//! The command layer: the five operations that callers reach, over the
//! shared handle. Each returns a value, never raises: a display shape on
//! success, an [`Error`] on failure.

use vstd::prelude::*;
use vstd::string::StringExecFns;

use crate::db::get_prisma_client;
use crate::db::SharedHandle;
use crate::error::Error;
use crate::error::ErrorView;
use crate::prisma::text_opt;
use crate::prisma::Cliente;
use crate::prisma::ClienteCreateInput;
use crate::prisma::ClienteModel;
use crate::prisma::ClienteUpdateInput;
use crate::prisma::ClienteWhereUniqueInput;
use crate::prisma::CreateModel;
use crate::prisma::KeyModel;
use crate::prisma::PrismaModel;
use crate::prisma::UpdateModel;
use crate::store::StoreModel;
use crate::timestamp::rfc3339_text;
use crate::timestamp::Instant;
use crate::timestamp::Timestamp;

verus! {

/// The entity that every not-found failure of these commands names.
pub const ENTITY_CLIENTE: &'static str = "Cliente";

/// The not-found failure for the client addressed by `id`.
pub open spec fn not_found(id: Seq<char>) -> ErrorView {
    ErrorView::NotFound { entity: ENTITY_CLIENTE@, id }
}

/// The storage fault with the given detail.
pub open spec fn storage_fault(detail: Seq<char>) -> ErrorView {
    ErrorView::DatabaseQuery { source: detail }
}

/// The failure to report for a client that `id` does not address.
pub fn cliente_not_found(id: String) -> (e: Error)
    ensures
        e@ == not_found(id@),
{
    Error::NotFound { entity: String::from_str(ENTITY_CLIENTE), id }
}

/// The failure to report for a fault of the store with the given detail.
pub fn database_fault(detail: String) -> (e: Error)
    ensures
        e@ == storage_fault(detail@),
{
    Error::DatabaseQuery { source: detail }
}

/// The fields of a client to create. Only the name is required.
#[derive(Debug, PartialEq, Eq)]
pub struct NovoClienteData {
    pub nome: String,
    pub cpf_cnpj: Option<String>,
    pub email: Option<String>,
    pub telefone: Option<String>,
    pub endereco: Option<String>,
    pub observacao: Option<String>,
}

impl View for NovoClienteData {
    type V = CreateModel;

    open spec fn view(&self) -> CreateModel {
        CreateModel {
            nome: self.nome@,
            cpf_cnpj: text_opt(self.cpf_cnpj),
            email: text_opt(self.email),
            telefone: text_opt(self.telefone),
            endereco: text_opt(self.endereco),
            observacao: text_opt(self.observacao),
        }
    }
}

/// The fields of a client to change. Each is optional: one that is missing
/// is left as it is.
#[derive(Debug, PartialEq, Eq)]
pub struct AtualizarClienteData {
    pub nome: Option<String>,
    pub cpf_cnpj: Option<String>,
    pub email: Option<String>,
    pub telefone: Option<String>,
    pub endereco: Option<String>,
    pub observacao: Option<String>,
}

impl View for AtualizarClienteData {
    type V = UpdateModel;

    open spec fn view(&self) -> UpdateModel {
        UpdateModel {
            nome: text_opt(self.nome),
            cpf_cnpj: text_opt(self.cpf_cnpj),
            email: text_opt(self.email),
            telefone: text_opt(self.telefone),
            endereco: text_opt(self.endereco),
            observacao: text_opt(self.observacao),
        }
    }
}

/// A client as callers see it: the record's fields as they are, its times as
/// RFC 3339 text.
#[derive(Debug, PartialEq, Eq)]
pub struct ClienteView {
    pub id: String,
    pub nome: String,
    pub cpf_cnpj: Option<String>,
    pub email: Option<String>,
    pub telefone: Option<String>,
    pub endereco: Option<String>,
    pub observacao: Option<String>,
    pub created_at: String,
    pub updated_at: String,
}

/// What a [`ClienteView`] is.
pub struct DisplayModel {
    pub id: Seq<char>,
    pub nome: Seq<char>,
    pub cpf_cnpj: Option<Seq<char>>,
    pub email: Option<Seq<char>>,
    pub telefone: Option<Seq<char>>,
    pub endereco: Option<Seq<char>>,
    pub observacao: Option<Seq<char>>,
    pub created_at: Seq<char>,
    pub updated_at: Seq<char>,
}

impl View for ClienteView {
    type V = DisplayModel;

    open spec fn view(&self) -> DisplayModel {
        DisplayModel {
            id: self.id@,
            nome: self.nome@,
            cpf_cnpj: text_opt(self.cpf_cnpj),
            email: text_opt(self.email),
            telefone: text_opt(self.telefone),
            endereco: text_opt(self.endereco),
            observacao: text_opt(self.observacao),
            created_at: self.created_at@,
            updated_at: self.updated_at@,
        }
    }
}

/// The display shape of a record whose times are written as `created_at`
/// and `updated_at`.
pub open spec fn display_with(
    c: ClienteModel,
    created_at: Seq<char>,
    updated_at: Seq<char>,
) -> DisplayModel {
    DisplayModel {
        id: c.id,
        nome: c.nome,
        cpf_cnpj: c.cpf_cnpj,
        email: c.email,
        telefone: c.telefone,
        endereco: c.endereco,
        observacao: c.observacao,
        created_at,
        updated_at,
    }
}

/// The display shape of a record: its times as chrono writes them in
/// RFC 3339 form.
pub open spec fn display(c: ClienteModel) -> DisplayModel {
    display_with(
        c,
        rfc3339_text(c.created_at.secs, c.created_at.nanos),
        rfc3339_text(c.updated_at.secs, c.updated_at.nanos),
    )
}

/// The display shapes of a sequence of records, in the same order.
pub open spec fn display_all(records: Seq<ClienteModel>) -> Seq<DisplayModel> {
    records.map_values(|c: ClienteModel| display(c))
}

/// The models of a sequence of display shapes, in the same order.
pub open spec fn display_models(views: Seq<ClienteView>) -> Seq<DisplayModel> {
    views.map_values(|v: ClienteView| v@)
}

/// What a command that answers with a display shape returned.
pub open spec fn answer(r: Result<ClienteView, Error>) -> Result<DisplayModel, ErrorView> {
    match r {
        Ok(v) => Ok(v@),
        Err(e) => Err(e@),
    }
}

/// What the deletion command returned.
pub open spec fn confirmation(r: Result<String, Error>) -> Result<Seq<char>, ErrorView> {
    match r {
        Ok(id) => Ok(id@),
        Err(e) => Err(e@),
    }
}

/// What creating a client from `data` at clock reading `now` does to the
/// store `s`, and what it answers: the new record's display shape, or the
/// store's refusal with the store unchanged.
pub open spec fn criar_outcome(s: StoreModel, data: CreateModel, now: Instant) -> (
    StoreModel,
    Result<DisplayModel, ErrorView>,
) {
    match s.create_refusal(data) {
        Some(detail) => (s, Err(storage_fault(detail))),
        None => (s.after_create(data, now), Ok(display(s.created(data, now)))),
    }
}

/// What listing the clients of the store `s` answers: every record's display
/// shape, in the store's order.
pub open spec fn listar_outcome(s: StoreModel) -> Seq<DisplayModel> {
    display_all(s.records)
}

/// What getting the client with identifier `id` from the store `s` answers:
/// its display shape, or that there is none.
pub open spec fn obter_outcome(s: StoreModel, id: Seq<char>) -> Result<DisplayModel, ErrorView> {
    match s.find(KeyModel::by_id(id)) {
        Some(c) => Ok(display(c)),
        None => Err(not_found(id)),
    }
}

/// What changing the client with identifier `id` by `patch` at clock reading
/// `now` does to the store `s`, and what it answers: the changed record's
/// display shape; that there is no such client; or the store's refusal. The
/// store changes only in the first case.
pub open spec fn atualizar_outcome(
    s: StoreModel,
    id: Seq<char>,
    patch: UpdateModel,
    now: Instant,
) -> (StoreModel, Result<DisplayModel, ErrorView>) {
    let key = KeyModel::by_id(id);
    if s.find(key) is None {
        (s, Err(not_found(id)))
    } else {
        match s.update_refusal(key, patch, now) {
            Some(detail) => (s, Err(storage_fault(detail))),
            None => (s.after_update(key, patch, now), Ok(display(s.updated(key, patch, now)))),
        }
    }
}

/// What deleting the client with identifier `id` does to the store `s`, and
/// what it answers: the identifier of the record that is gone, or that there
/// is no such client, with the store unchanged.
pub open spec fn deletar_outcome(s: StoreModel, id: Seq<char>) -> (
    StoreModel,
    Result<Seq<char>, ErrorView>,
) {
    let key = KeyModel::by_id(id);
    match s.find(key) {
        None => (s, Err(not_found(id))),
        Some(c) => (s.after_delete(key), Ok(c.id)),
    }
}

/// The greeting for `name`.
pub open spec fn greeting(name: Seq<char>) -> Seq<char> {
    "Hello, "@ + name + "! You've been greeted from Rust!"@
}

/// Greets `name`.
pub fn greet(name: &str) -> (text: String)
    ensures
        text@ == greeting(name@),
{
    let mut text = String::from_str("Hello, ");
    text.append(name);
    text.append("! You've been greeted from Rust!");
    text
}

/// The handle after a command: it holds a client whose client store is
/// `clientes` and whose settings are those that the handle served before.
pub open spec fn holds(after: &SharedHandle, before: &SharedHandle, clientes: StoreModel) -> bool {
    after@ == Some(
        PrismaModel { clientes, configuracoes: before.served().configuracoes },
    )
}

/// The display shape of a record whose times have been written as
/// `created_at` and `updated_at`: every field as it is, the two texts in
/// place of the times.
pub fn view_with_times(
    data: Cliente,
    created_at: String,
    updated_at: String,
) -> (view: ClienteView)
    ensures
        view@ == display_with(data@, created_at@, updated_at@),
{
    ClienteView {
        id: data.id,
        nome: data.nome,
        cpf_cnpj: data.cpf_cnpj,
        email: data.email,
        telefone: data.telefone,
        endereco: data.endereco,
        observacao: data.observacao,
        created_at,
        updated_at,
    }
}

/// The display shape of a record: every field as it is, the two times as
/// RFC 3339 text.
pub fn cliente_data_to_view(data: Cliente) -> (view: ClienteView)
    ensures
        view@ == display(data@),
{
    let created_at = data.created_at.to_rfc3339();
    let updated_at = data.updated_at.to_rfc3339();
    view_with_times(data, created_at, updated_at)
}

/// Creates a client from `data` at clock reading `now`.
pub fn criar_cliente(
    handle: &mut SharedHandle,
    data: NovoClienteData,
    now: Timestamp,
) -> (r: Result<ClienteView, Error>)
    requires
        old(handle).wf(),
    ensures
        final(handle).wf(),
        answer(r) == criar_outcome(old(handle).served().clientes, data@, now@).1,
        holds(
            final(handle),
            old(handle),
            criar_outcome(old(handle).served().clientes, data@, now@).0,
        ),
{
    let db = match get_prisma_client(handle) {
        Ok(db) => db,
        Err(e) => {
            return Err(e);
        },
    };
    let create_data = ClienteCreateInput {
        nome: data.nome,
        cpf_cnpj: data.cpf_cnpj,
        email: data.email,
        telefone: data.telefone,
        endereco: data.endereco,
        observacao: data.observacao,
    };
    match db.cliente_mut().create(create_data, now) {
        Ok(cliente) => Ok(cliente_data_to_view(cliente)),
        Err(e) => Err(database_fault(e)),
    }
}

/// Lists every client, in the store's order.
pub fn listar_clientes(handle: &mut SharedHandle) -> (r: Result<Vec<ClienteView>, Error>)
    requires
        old(handle).wf(),
    ensures
        final(handle).wf(),
        r matches Ok(views) && display_models(views@) == listar_outcome(
            old(handle).served().clientes,
        ),
        final(handle)@ == Some(old(handle).served()),
{
    let db = match get_prisma_client(handle) {
        Ok(db) => db,
        Err(e) => {
            return Err(e);
        },
    };
    let clientes = db.cliente().find_many();
    let mut views: Vec<ClienteView> = Vec::new();
    let mut i: usize = 0;
    while i < clientes.len()
        invariant
            0 <= i <= clientes@.len(),
            views@.len() == i,
            forall|j: int| 0 <= j < i ==> (#[trigger] views@[j])@ == display(clientes@[j]@),
        decreases clientes@.len() - i,
    {
        views.push(cliente_data_to_view(clientes[i].clone()));
        i += 1;
    }
    assert(display_models(views@) =~= listar_outcome(db@.clientes));
    Ok(views)
}

/// Gets the client with identifier `id`.
pub fn obter_cliente(handle: &mut SharedHandle, id: String) -> (r: Result<ClienteView, Error>)
    requires
        old(handle).wf(),
    ensures
        final(handle).wf(),
        answer(r) == obter_outcome(old(handle).served().clientes, id@),
        final(handle)@ == Some(old(handle).served()),
{
    let db = match get_prisma_client(handle) {
        Ok(db) => db,
        Err(e) => {
            return Err(e);
        },
    };
    let where_input = ClienteWhereUniqueInput::by_id(id.clone());
    match db.cliente().find_unique(where_input) {
        Some(data) => Ok(cliente_data_to_view(data)),
        None => Err(cliente_not_found(id)),
    }
}

/// Changes the client with identifier `id` by `data`, at clock reading `now`.
pub fn atualizar_cliente(
    handle: &mut SharedHandle,
    id: String,
    data: AtualizarClienteData,
    now: Timestamp,
) -> (r: Result<ClienteView, Error>)
    requires
        old(handle).wf(),
    ensures
        final(handle).wf(),
        answer(r) == atualizar_outcome(old(handle).served().clientes, id@, data@, now@).1,
        holds(
            final(handle),
            old(handle),
            atualizar_outcome(old(handle).served().clientes, id@, data@, now@).0,
        ),
{
    let db = match get_prisma_client(handle) {
        Ok(db) => db,
        Err(e) => {
            return Err(e);
        },
    };
    if db.cliente().find_unique(ClienteWhereUniqueInput::by_id(id.clone())).is_none() {
        return Err(cliente_not_found(id));
    }
    let update_data = ClienteUpdateInput {
        nome: data.nome,
        cpf_cnpj: data.cpf_cnpj,
        email: data.email,
        telefone: data.telefone,
        endereco: data.endereco,
        observacao: data.observacao,
    };
    let where_input = ClienteWhereUniqueInput::by_id(id);
    match db.cliente_mut().update(where_input, update_data, now) {
        Ok(cliente) => Ok(cliente_data_to_view(cliente)),
        Err(e) => Err(database_fault(e)),
    }
}

/// Deletes the client with identifier `id` and confirms with the identifier
/// of the record that is gone.
pub fn deletar_cliente(handle: &mut SharedHandle, id: String) -> (r: Result<String, Error>)
    requires
        old(handle).wf(),
    ensures
        final(handle).wf(),
        confirmation(r) == deletar_outcome(old(handle).served().clientes, id@).1,
        holds(final(handle), old(handle), deletar_outcome(old(handle).served().clientes, id@).0),
{
    let db = match get_prisma_client(handle) {
        Ok(db) => db,
        Err(e) => {
            return Err(e);
        },
    };
    if db.cliente().find_unique(ClienteWhereUniqueInput::by_id(id.clone())).is_none() {
        return Err(cliente_not_found(id));
    }
    let where_input = ClienteWhereUniqueInput::by_id(id);
    match db.cliente_mut().delete(where_input) {
        Ok(resultado) => Ok(resultado.id),
        Err(e) => Err(database_fault(e)),
    }
}

} // verus!
