//! What holds of the commands taken together, proved of every store, every
//! input and every clock reading.

use vstd::prelude::*;

use crate::commands::atualizar_outcome;
use crate::commands::criar_outcome;
use crate::commands::deletar_outcome;
use crate::commands::display;
use crate::commands::listar_outcome;
use crate::commands::not_found;
use crate::commands::obter_outcome;
use crate::commands::DisplayModel;
use crate::error::ErrorView;
use crate::prisma::CreateModel;
use crate::prisma::KeyModel;
use crate::prisma::UpdateModel;
use crate::store::replaced;
use crate::store::replaced_opt;
use crate::store::StoreModel;
use crate::timestamp::lemma_stamp_after;
use crate::timestamp::rfc3339_text;
use crate::timestamp::Instant;

verus! {

/// No record of the store carries the identifier `id`.
pub open spec fn unknown_id(s: StoreModel, id: Seq<char>) -> bool {
    forall|i: int| 0 <= i < s.records.len() ==> (#[trigger] s.records[i]).id != id
}

/// Exactly one of the listed clients carries the tax id `cpf`.
pub open spec fn one_with_cpf(listed: Seq<DisplayModel>, cpf: Option<Seq<char>>) -> bool {
    exists|i: int|
        {
            &&& 0 <= i < listed.len()
            &&& (#[trigger] listed[i]).cpf_cnpj == cpf
            &&& forall|j: int|
                0 <= j < listed.len() && (#[trigger] listed[j]).cpf_cnpj == cpf ==> j == i
        }
}

/// Exactly one of the listed clients carries the email `email`.
pub open spec fn one_with_email(listed: Seq<DisplayModel>, email: Option<Seq<char>>) -> bool {
    exists|i: int|
        {
            &&& 0 <= i < listed.len()
            &&& (#[trigger] listed[i]).email == email
            &&& forall|j: int|
                0 <= j < listed.len() && (#[trigger] listed[j]).email == email ==> j == i
        }
}

/// Round trip. A creation succeeds exactly where the store does not refuse
/// it. The client it answers with is the one that a get by its identifier
/// answers with right after; it carries an identifier that no record
/// carried before, every field as given, absent where none was given, and
/// one text, that of the clock reading, as both its creation and its update
/// time.
pub proof fn lemma_create_then_get(s: StoreModel, data: CreateModel, now: Instant)
    requires
        s.wf(),
        now.wf(),
    ensures
        criar_outcome(s, data, now).0.wf(),
        criar_outcome(s, data, now).1 is Ok <==> s.create_refusal(data) is None,
        criar_outcome(s, data, now).1 matches Ok(v) ==> {
            &&& obter_outcome(criar_outcome(s, data, now).0, v.id) == Ok::<DisplayModel, ErrorView>(
                v,
            )
            &&& unknown_id(s, v.id)
            &&& v.nome == data.nome
            &&& v.cpf_cnpj == data.cpf_cnpj
            &&& v.email == data.email
            &&& v.telefone == data.telefone
            &&& v.endereco == data.endereco
            &&& v.observacao == data.observacao
            &&& v.created_at == rfc3339_text(now.secs, now.nanos)
            &&& v.updated_at == v.created_at
        },
{
    if s.create_refusal(data) is None {
        let after = s.after_create(data, now);
        s.lemma_create_keeps_wf(data, now);
        after.lemma_locate_by_id(s.records.len() as int);
        assert forall|i: int| 0 <= i < s.records.len() implies (#[trigger] s.records[i]).id
            != s.created(data, now).id by {
            assert(s.record_ok(i));
            s.lemma_next_id_is_fresh(s.records[i].id);
        }
    }
}

/// A change keeps what it does not touch. Changing a record of the store
/// succeeds exactly where the store does not refuse the change. The client
/// it answers with is the one that a get by the same identifier answers
/// with right after. Each field that the change gives has the given value,
/// each other field the value it had; the identifier and the creation time
/// are as before, the update time is strictly later, and no other record
/// has changed.
pub proof fn lemma_update_then_get(s: StoreModel, i: int, patch: UpdateModel, now: Instant)
    requires
        s.wf(),
        now.wf(),
        0 <= i < s.records.len(),
    ensures
        ({
            let before = s.records[i];
            let key = KeyModel::by_id(before.id);
            let (after, answer) = atualizar_outcome(s, before.id, patch, now);
            &&& after.wf()
            &&& answer is Ok <==> s.update_refusal(key, patch, now) is None
            &&& answer is Err ==> after == s
            &&& answer matches Ok(v) ==> {
                let now_is = after.records[i];
                &&& after.records.len() == s.records.len()
                &&& obter_outcome(after, before.id) == Ok::<DisplayModel, ErrorView>(v)
                &&& v == display(now_is)
                &&& now_is.id == before.id
                &&& now_is.nome == replaced(before.nome, patch.nome)
                &&& now_is.cpf_cnpj == replaced_opt(before.cpf_cnpj, patch.cpf_cnpj)
                &&& now_is.email == replaced_opt(before.email, patch.email)
                &&& now_is.telefone == replaced_opt(before.telefone, patch.telefone)
                &&& now_is.endereco == replaced_opt(before.endereco, patch.endereco)
                &&& now_is.observacao == replaced_opt(before.observacao, patch.observacao)
                &&& now_is.created_at == before.created_at
                &&& before.updated_at.before(now_is.updated_at)
                &&& forall|j: int|
                    0 <= j < s.records.len() && j != i ==> #[trigger] after.records[j]
                        == s.records[j]
            }
        }),
{
    let before = s.records[i];
    let key = KeyModel::by_id(before.id);
    s.lemma_locate_by_id(i);
    assert(s.record_ok(i));
    lemma_stamp_after(before.updated_at, now);
    if s.update_refusal(key, patch, now) is None {
        let after = s.after_update(key, patch, now);
        s.lemma_update_keeps_wf(key, patch, now);
        after.lemma_locate_by_id(i);
    }
}

/// Delete, then get. Deleting a record of the store succeeds and answers
/// with its identifier; the record is gone, the others are as they were and
/// in their order; a get by that identifier right after answers that there
/// is no such client.
pub proof fn lemma_delete_then_get(s: StoreModel, i: int)
    requires
        s.wf(),
        0 <= i < s.records.len(),
    ensures
        ({
            let id = s.records[i].id;
            let (after, answer) = deletar_outcome(s, id);
            &&& answer == Ok::<Seq<char>, ErrorView>(id)
            &&& after.wf()
            &&& after.records == s.records.remove(i)
            &&& unknown_id(after, id)
            &&& obter_outcome(after, id) == Err::<DisplayModel, ErrorView>(
                not_found(id),
            )
        }),
{
    let id = s.records[i].id;
    let key = KeyModel::by_id(id);
    s.lemma_locate_by_id(i);
    s.lemma_delete_keeps_wf(key);
    let after = s.after_delete(key);
    assert forall|j: int| 0 <= j < after.records.len() implies (#[trigger] after.records[j]).id
        != id by {
        let k = if j < i {
            j
        } else {
            j + 1
        };
        assert(s.records[k].id != s.records[i].id);
    }
    lemma_unknown_id_is_not_found(after, id);
}

/// An identifier that no record carries is one that no key by identifier
/// finds.
pub proof fn lemma_unknown_id_is_not_found(s: StoreModel, id: Seq<char>)
    requires
        unknown_id(s, id),
    ensures
        s.find(KeyModel::by_id(id)) is None,
{
    s.lemma_locate(KeyModel::by_id(id));
}

/// Uniqueness of the tax id. After a creation with a tax id has succeeded,
/// a creation with the same tax id fails with a storage fault and leaves the
/// store as it was, and the listing holds exactly one client with that tax
/// id.
pub proof fn lemma_second_cpf_is_refused(
    s: StoreModel,
    first: CreateModel,
    second: CreateModel,
    then: Instant,
    now: Instant,
)
    requires
        s.wf(),
        then.wf(),
        now.wf(),
        first.cpf_cnpj is Some,
        second.cpf_cnpj == first.cpf_cnpj,
        criar_outcome(s, first, then).1 is Ok,
    ensures
        ({
            let held = criar_outcome(s, first, then).0;
            let (after, answer) = criar_outcome(held, second, now);
            &&& answer matches Err(e) && e is DatabaseQuery
            &&& after == held
            &&& one_with_cpf(listar_outcome(after), first.cpf_cnpj)
        }),
{
    let held = s.after_create(first, then);
    let n = s.records.len() as int;
    s.lemma_create_keeps_wf(first, then);
    assert(held.records[n].cpf_cnpj == second.cpf_cnpj);
    assert(held.cpf_taken(second.cpf_cnpj, -1));
    let listed = listar_outcome(held);
    assert(listed[n].cpf_cnpj == first.cpf_cnpj);
    assert forall|j: int|
        0 <= j < listed.len() && (#[trigger] listed[j]).cpf_cnpj == first.cpf_cnpj implies j
        == n by {
        if j < n {
            assert(held.records[j].cpf_cnpj != held.records[n].cpf_cnpj);
        }
    }
}

/// Uniqueness of the email. After a creation with an email has succeeded, a
/// creation with the same email fails with a storage fault and leaves the
/// store as it was, and the listing holds exactly one client with that
/// email.
pub proof fn lemma_second_email_is_refused(
    s: StoreModel,
    first: CreateModel,
    second: CreateModel,
    then: Instant,
    now: Instant,
)
    requires
        s.wf(),
        then.wf(),
        now.wf(),
        first.email is Some,
        second.email == first.email,
        criar_outcome(s, first, then).1 is Ok,
    ensures
        ({
            let held = criar_outcome(s, first, then).0;
            let (after, answer) = criar_outcome(held, second, now);
            &&& answer matches Err(e) && e is DatabaseQuery
            &&& after == held
            &&& one_with_email(listar_outcome(after), first.email)
        }),
{
    let held = s.after_create(first, then);
    let n = s.records.len() as int;
    s.lemma_create_keeps_wf(first, then);
    assert(held.records[n].email == second.email);
    assert(held.email_taken(second.email, -1));
    let listed = listar_outcome(held);
    assert(listed[n].email == first.email);
    assert forall|j: int|
        0 <= j < listed.len() && (#[trigger] listed[j]).email == first.email implies j == n by {
        if j < n {
            assert(held.records[j].email != held.records[n].email);
        }
    }
}

/// Addressing what is not there. For an identifier that no record carries,
/// a get, a change and a deletion each answer that there is no such client,
/// and the store is as it was.
pub proof fn lemma_unknown_id_is_reported(
    s: StoreModel,
    id: Seq<char>,
    patch: UpdateModel,
    now: Instant,
)
    requires
        unknown_id(s, id),
    ensures
        obter_outcome(s, id) == Err::<DisplayModel, ErrorView>(not_found(id)),
        atualizar_outcome(s, id, patch, now) == (
            s,
            Err::<DisplayModel, ErrorView>(not_found(id)),
        ),
        deletar_outcome(s, id) == (
            s,
            Err::<Seq<char>, ErrorView>(not_found(id)),
        ),
{
    lemma_unknown_id_is_not_found(s, id);
}

/// The listing follows the commands. After a creation that succeeded, the
/// listing is the one before with the new client at its end; after a change
/// that succeeded, the one before with the changed client in the place of
/// the old; after a deletion that succeeded, the one before without the
/// deleted client. After a command that failed it is the one before.
pub proof fn lemma_listing_follows_commands(
    s: StoreModel,
    data: CreateModel,
    i: int,
    patch: UpdateModel,
    now: Instant,
)
    requires
        s.wf(),
        now.wf(),
        0 <= i < s.records.len(),
    ensures
        match criar_outcome(s, data, now) {
            (after, Ok(v)) => listar_outcome(after) == listar_outcome(s).push(v),
            (after, Err(_)) => listar_outcome(after) == listar_outcome(s),
        },
        match atualizar_outcome(s, s.records[i].id, patch, now) {
            (after, Ok(v)) => listar_outcome(after) == listar_outcome(s).update(i, v),
            (after, Err(_)) => listar_outcome(after) == listar_outcome(s),
        },
        match deletar_outcome(s, s.records[i].id) {
            (after, Ok(_)) => listar_outcome(after) == listar_outcome(s).remove(i),
            (after, Err(_)) => listar_outcome(after) == listar_outcome(s),
        },
{
    s.lemma_locate_by_id(i);
    match criar_outcome(s, data, now) {
        (after, Ok(v)) => {
            assert(listar_outcome(after) =~= listar_outcome(s).push(v));
        },
        (after, Err(_)) => {},
    }
    match atualizar_outcome(s, s.records[i].id, patch, now) {
        (after, Ok(v)) => {
            assert(listar_outcome(after) =~= listar_outcome(s).update(i, v));
        },
        (after, Err(_)) => {},
    }
    match deletar_outcome(s, s.records[i].id) {
        (after, Ok(_)) => {
            assert(listar_outcome(after) =~= listar_outcome(s).remove(i));
        },
        (after, Err(_)) => {},
    }
}

} // verus!
