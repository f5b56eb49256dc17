//! The mathematical model of the client store: a sequence of records in the
//! order of their creation and the count of identifiers issued so far, with
//! what each operation of the data-access layer does to them.

use vstd::prelude::*;

use crate::ident::decimal;
use crate::ident::lemma_decimal_injective;
use crate::prisma::ClienteModel;
use crate::prisma::CreateModel;
use crate::prisma::KeyModel;
use crate::prisma::UpdateModel;
use crate::timestamp::lemma_stamp_after;
use crate::timestamp::Instant;

verus! {

/// Detail of the fault raised when the tax id of a new or changed record is
/// already in use.
pub const DETAIL_CPF_CNPJ_TAKEN: &'static str = "unique constraint failed: cpf_cnpj";

/// Detail of the fault raised when the email of a new or changed record is
/// already in use.
pub const DETAIL_EMAIL_TAKEN: &'static str = "unique constraint failed: email";

/// Detail of the fault raised when the key of a change or a deletion
/// addresses no record.
pub const DETAIL_RECORD_MISSING: &'static str = "no record matches the key";

/// Detail of the fault raised when the store has no identifier left to
/// assign.
pub const DETAIL_IDS_EXHAUSTED: &'static str = "identifier space exhausted";

/// Detail of the fault raised when a record's update time cannot advance
/// any further.
pub const DETAIL_CLOCK_EXHAUSTED: &'static str = "update time cannot advance";

/// A given field replaces the old one; a missing field keeps it.
pub open spec fn replaced(old_value: Seq<char>, given: Option<Seq<char>>) -> Seq<char> {
    match given {
        Some(v) => v,
        None => old_value,
    }
}

/// A given optional field replaces the old one; a missing field keeps it.
pub open spec fn replaced_opt(old_value: Option<Seq<char>>, given: Option<Seq<char>>) -> Option<
    Seq<char>,
> {
    match given {
        Some(v) => Some(v),
        None => old_value,
    }
}

/// The record `r` after the change `patch`, stamped `stamp`.
pub open spec fn patched(r: ClienteModel, patch: UpdateModel, stamp: Instant) -> ClienteModel {
    ClienteModel {
        id: r.id,
        nome: replaced(r.nome, patch.nome),
        cpf_cnpj: replaced_opt(r.cpf_cnpj, patch.cpf_cnpj),
        email: replaced_opt(r.email, patch.email),
        telefone: replaced_opt(r.telefone, patch.telefone),
        endereco: replaced_opt(r.endereco, patch.endereco),
        observacao: replaced_opt(r.observacao, patch.observacao),
        created_at: r.created_at,
        updated_at: stamp,
    }
}

/// The state of the client store.
pub struct StoreModel {
    /// The records, oldest first.
    pub records: Seq<ClienteModel>,
    /// How many identifiers the store has issued.
    pub issued: nat,
}

impl StoreModel {
    /// The store with no record, which has issued no identifier.
    pub open spec fn empty() -> StoreModel {
        StoreModel { records: Seq::empty(), issued: 0 }
    }

    /// `id` is the numeral of a number that the store has issued.
    pub open spec fn was_issued(self, id: Seq<char>) -> bool {
        exists|k: nat| 1 <= k <= self.issued && id == #[trigger] decimal(k)
    }

    /// The record at `i` carries an issued identifier and well-formed times,
    /// the update not before the creation.
    pub open spec fn record_ok(self, i: int) -> bool {
        let r = self.records[i];
        &&& self.was_issued(r.id)
        &&& r.created_at.wf()
        &&& r.updated_at.wf()
        &&& !r.updated_at.before(r.created_at)
    }

    /// The store's invariant: every record is in order, no identifier occurs
    /// twice, and no tax id and no email that is present occurs twice.
    pub open spec fn wf(self) -> bool {
        &&& forall|i: int| 0 <= i < self.records.len() ==> #[trigger] self.record_ok(i)
        &&& forall|i: int, j: int|
            0 <= i < j < self.records.len() ==> (#[trigger] self.records[i]).id != (
            #[trigger] self.records[j]).id
        &&& forall|i: int, j: int|
            0 <= i < j < self.records.len() && (#[trigger] self.records[i]).cpf_cnpj is Some
                ==> self.records[i].cpf_cnpj != (#[trigger] self.records[j]).cpf_cnpj
        &&& forall|i: int, j: int|
            0 <= i < j < self.records.len() && (#[trigger] self.records[i]).email is Some
                ==> self.records[i].email != (#[trigger] self.records[j]).email
    }

    /// `i` is the first position whose record `key` addresses.
    pub open spec fn is_first_hit(self, key: KeyModel, i: int) -> bool {
        &&& 0 <= i < self.records.len()
        &&& key.matches(self.records[i])
        &&& forall|j: int| 0 <= j < i ==> !key.matches(#[trigger] self.records[j])
    }

    /// The position of the record that `key` addresses, if there is one.
    pub open spec fn locate(self, key: KeyModel) -> Option<int> {
        if exists|i: int| self.is_first_hit(key, i) {
            Some(choose|i: int| self.is_first_hit(key, i))
        } else {
            None
        }
    }

    /// The record that `key` addresses, if there is one.
    pub open spec fn find(self, key: KeyModel) -> Option<ClienteModel> {
        match self.locate(key) {
            Some(i) => Some(self.records[i]),
            None => None,
        }
    }

    /// A record other than the one at `skip` carries the tax id `cpf`.
    pub open spec fn cpf_taken(self, cpf: Option<Seq<char>>, skip: int) -> bool {
        cpf is Some && exists|i: int|
            0 <= i < self.records.len() && i != skip && (#[trigger] self.records[i]).cpf_cnpj
                == cpf
    }

    /// A record other than the one at `skip` carries the email `email`.
    pub open spec fn email_taken(self, email: Option<Seq<char>>, skip: int) -> bool {
        email is Some && exists|i: int|
            0 <= i < self.records.len() && i != skip && (#[trigger] self.records[i]).email
                == email
    }

    /// The detail of the fault with which the store refuses to create a record
    /// from `data`, if it does: the tax id is in use, else the email is, else
    /// no identifier is left.
    pub open spec fn create_refusal(self, data: CreateModel) -> Option<Seq<char>> {
        if self.cpf_taken(data.cpf_cnpj, -1) {
            Some(DETAIL_CPF_CNPJ_TAKEN@)
        } else if self.email_taken(data.email, -1) {
            Some(DETAIL_EMAIL_TAKEN@)
        } else if self.issued >= u64::MAX {
            Some(DETAIL_IDS_EXHAUSTED@)
        } else {
            None
        }
    }

    /// The record that creating from `data` at time `now` makes: the next
    /// identifier, the fields as given, both times `now`.
    pub open spec fn created(self, data: CreateModel, now: Instant) -> ClienteModel {
        ClienteModel {
            id: decimal(self.issued + 1),
            nome: data.nome,
            cpf_cnpj: data.cpf_cnpj,
            email: data.email,
            telefone: data.telefone,
            endereco: data.endereco,
            observacao: data.observacao,
            created_at: now,
            updated_at: now,
        }
    }

    /// The store after a creation that it did not refuse.
    pub open spec fn after_create(self, data: CreateModel, now: Instant) -> StoreModel {
        StoreModel { records: self.records.push(self.created(data, now)), issued: self.issued + 1 }
    }

    /// The detail of the fault with which the store refuses the change `patch`
    /// to the record that `key` addresses, if it does: there is no such record, else another record
    /// has the new tax id, else another has the new email, else the record's
    /// update time cannot advance.
    pub open spec fn update_refusal(
        self,
        key: KeyModel,
        patch: UpdateModel,
        now: Instant,
    ) -> Option<Seq<char>> {
        match self.locate(key) {
            None => Some(DETAIL_RECORD_MISSING@),
            Some(i) => if self.cpf_taken(patch.cpf_cnpj, i) {
                Some(DETAIL_CPF_CNPJ_TAKEN@)
            } else if self.email_taken(patch.email, i) {
                Some(DETAIL_EMAIL_TAKEN@)
            } else if Instant::stamp_after(self.records[i].updated_at, now) is None {
                Some(DETAIL_CLOCK_EXHAUSTED@)
            } else {
                None
            },
        }
    }

    /// The record that `key` addresses after the change `patch` made at
    /// clock reading `now`.
    pub open spec fn updated(
        self,
        key: KeyModel,
        patch: UpdateModel,
        now: Instant,
    ) -> ClienteModel {
        let r = self.records[self.locate(key).unwrap()];
        patched(r, patch, Instant::stamp_after(r.updated_at, now).unwrap())
    }

    /// The store after a change that it did not refuse.
    pub open spec fn after_update(
        self,
        key: KeyModel,
        patch: UpdateModel,
        now: Instant,
    ) -> StoreModel {
        StoreModel {
            records: self.records.update(
                self.locate(key).unwrap(),
                self.updated(key, patch, now),
            ),
            issued: self.issued,
        }
    }

    /// The detail of the fault with which the store refuses to delete the
    /// record that `key` addresses, if it does: there is no such record.
    pub open spec fn delete_refusal(self, key: KeyModel) -> Option<Seq<char>> {
        match self.locate(key) {
            None => Some(DETAIL_RECORD_MISSING@),
            Some(_) => None,
        }
    }

    /// The store after a deletion that it did not refuse: the record is gone,
    /// the others keep their order, and its identifier is not issued again.
    pub open spec fn after_delete(self, key: KeyModel) -> StoreModel {
        StoreModel { records: self.records.remove(self.locate(key).unwrap()), issued: self.issued }
    }

    /// What `locate` gives is the first hit, and it gives nothing only where
    /// the key addresses no record at all.
    pub proof fn lemma_locate(self, key: KeyModel)
        ensures
            self.locate(key) matches Some(i) ==> self.is_first_hit(key, i),
            self.locate(key) is None ==> forall|j: int|
                0 <= j < self.records.len() ==> !key.matches(#[trigger] self.records[j]),
    {
        if self.locate(key) is None {
            assert forall|j: int| 0 <= j < self.records.len() implies !key.matches(
                #[trigger] self.records[j],
            ) by {
                if key.matches(self.records[j]) {
                    self.lemma_hit_has_first(key, j);
                }
            }
        }
    }

    /// Where the key addresses the record at `j`, some position up to `j` is
    /// the first hit.
    pub proof fn lemma_hit_has_first(self, key: KeyModel, j: int)
        requires
            0 <= j < self.records.len(),
            key.matches(self.records[j]),
        ensures
            exists|i: int| 0 <= i <= j && self.is_first_hit(key, i),
        decreases j,
    {
        if exists|k: int| 0 <= k < j && key.matches(self.records[k]) {
            let k = choose|k: int| 0 <= k < j && key.matches(self.records[k]);
            self.lemma_hit_has_first(key, k);
        } else {
            assert(self.is_first_hit(key, j));
        }
    }

    /// There is one first hit at most.
    pub proof fn lemma_first_hit_unique(self, key: KeyModel, i: int, j: int)
        requires
            self.is_first_hit(key, i),
            self.is_first_hit(key, j),
        ensures
            i == j,
    {
    }

    /// A first hit is what `locate` gives.
    pub proof fn lemma_first_hit_is_located(self, key: KeyModel, i: int)
        requires
            self.is_first_hit(key, i),
        ensures
            self.locate(key) == Some(i),
    {
        let c = choose|c: int| self.is_first_hit(key, c);
        self.lemma_first_hit_unique(key, i, c);
    }

    /// In a well-formed store, the record that carries identifier `id` is the
    /// one that the key by that identifier locates.
    pub proof fn lemma_locate_by_id(self, i: int)
        requires
            self.wf(),
            0 <= i < self.records.len(),
        ensures
            self.locate(KeyModel::by_id(self.records[i].id)) == Some(i),
    {
        let key = KeyModel::by_id(self.records[i].id);
        assert(self.is_first_hit(key, i));
        self.lemma_first_hit_is_located(key, i);
    }

    /// An identifier that the store has issued is not the one it issues next.
    pub proof fn lemma_next_id_is_fresh(self, id: Seq<char>)
        requires
            self.was_issued(id),
        ensures
            id != decimal(self.issued + 1),
    {
        let k = choose|k: nat| 1 <= k <= self.issued && id == #[trigger] decimal(k);
        if decimal(k) == decimal(self.issued + 1) {
            lemma_decimal_injective(k, self.issued + 1);
        }
    }

    /// A creation that is not refused keeps the store well-formed.
    pub proof fn lemma_create_keeps_wf(self, data: CreateModel, now: Instant)
        requires
            self.wf(),
            now.wf(),
            self.create_refusal(data) is None,
        ensures
            self.after_create(data, now).wf(),
    {
        let next = self.after_create(data, now);
        let n = self.records.len() as int;
        assert forall|i: int| 0 <= i < next.records.len() implies #[trigger] next.record_ok(
            i,
        ) by {
            if i < n {
                assert(self.record_ok(i));
                let k = choose|k: nat|
                    1 <= k <= self.issued && self.records[i].id == #[trigger] decimal(k);
                assert(1 <= k <= next.issued && next.records[i].id == decimal(k));
            } else {
                assert(next.records[i].id == decimal(next.issued));
            }
        }
        assert forall|i: int, j: int| 0 <= i < j < next.records.len() implies (
        #[trigger] next.records[i]).id != (#[trigger] next.records[j]).id by {
            if j == n {
                assert(self.record_ok(i));
                self.lemma_next_id_is_fresh(self.records[i].id);
            } else {
                assert(self.records[i].id != self.records[j].id);
            }
        }
        assert forall|i: int, j: int|
            0 <= i < j < next.records.len() && (#[trigger] next.records[i]).cpf_cnpj is Some
            implies next.records[i].cpf_cnpj != (#[trigger] next.records[j]).cpf_cnpj by {
            if j == n {
                if self.records[i].cpf_cnpj == data.cpf_cnpj {
                    assert(self.cpf_taken(data.cpf_cnpj, -1));
                }
            } else {
                assert(self.records[i].cpf_cnpj != self.records[j].cpf_cnpj);
            }
        }
        assert forall|i: int, j: int|
            0 <= i < j < next.records.len() && (#[trigger] next.records[i]).email is Some
            implies next.records[i].email != (#[trigger] next.records[j]).email by {
            if j == n {
                if self.records[i].email == data.email {
                    assert(self.email_taken(data.email, -1));
                }
            } else {
                assert(self.records[i].email != self.records[j].email);
            }
        }
    }

    /// A change that is not refused keeps the store well-formed.
    pub proof fn lemma_update_keeps_wf(self, key: KeyModel, patch: UpdateModel, now: Instant)
        requires
            self.wf(),
            now.wf(),
            self.update_refusal(key, patch, now) is None,
        ensures
            self.after_update(key, patch, now).wf(),
    {
        self.lemma_locate(key);
        let next = self.after_update(key, patch, now);
        let t = self.locate(key).unwrap();
        let old_r = self.records[t];
        assert(self.record_ok(t));
        lemma_stamp_after(old_r.updated_at, now);
        assert forall|i: int| 0 <= i < next.records.len() implies #[trigger] next.record_ok(
            i,
        ) by {
            assert(self.record_ok(i));
        }
        assert forall|i: int, j: int| 0 <= i < j < next.records.len() implies (
        #[trigger] next.records[i]).id != (#[trigger] next.records[j]).id by {
            assert(self.records[i].id != self.records[j].id);
        }
        assert forall|i: int, j: int|
            0 <= i < j < next.records.len() && (#[trigger] next.records[i]).cpf_cnpj is Some
            implies next.records[i].cpf_cnpj != (#[trigger] next.records[j]).cpf_cnpj by {
            if next.records[i].cpf_cnpj == next.records[j].cpf_cnpj {
                if patch.cpf_cnpj is Some && i == t {
                    assert(self.records[j].cpf_cnpj == patch.cpf_cnpj);
                    assert(self.cpf_taken(patch.cpf_cnpj, t));
                } else if patch.cpf_cnpj is Some && j == t {
                    assert(self.records[i].cpf_cnpj == patch.cpf_cnpj);
                    assert(self.cpf_taken(patch.cpf_cnpj, t));
                } else {
                    assert(self.records[i].cpf_cnpj != self.records[j].cpf_cnpj);
                }
            }
        }
        assert forall|i: int, j: int|
            0 <= i < j < next.records.len() && (#[trigger] next.records[i]).email is Some
            implies next.records[i].email != (#[trigger] next.records[j]).email by {
            if next.records[i].email == next.records[j].email {
                if patch.email is Some && i == t {
                    assert(self.records[j].email == patch.email);
                    assert(self.email_taken(patch.email, t));
                } else if patch.email is Some && j == t {
                    assert(self.records[i].email == patch.email);
                    assert(self.email_taken(patch.email, t));
                } else {
                    assert(self.records[i].email != self.records[j].email);
                }
            }
        }
    }

    /// A deletion that is not refused keeps the store well-formed.
    pub proof fn lemma_delete_keeps_wf(self, key: KeyModel)
        requires
            self.wf(),
            self.delete_refusal(key) is None,
        ensures
            self.after_delete(key).wf(),
    {
        self.lemma_locate(key);
        let next = self.after_delete(key);
        let t = self.locate(key).unwrap();
        assert forall|i: int| 0 <= i < next.records.len() implies #[trigger] next.record_ok(
            i,
        ) by {
            if i < t {
                assert(self.record_ok(i));
            } else {
                assert(self.record_ok(i + 1));
            }
        }
        assert forall|i: int, j: int| 0 <= i < j < next.records.len() implies (
        #[trigger] next.records[i]).id != (#[trigger] next.records[j]).id by {
            let a = if i < t { i } else { i + 1 };
            let b = if j < t { j } else { j + 1 };
            assert(self.records[a].id != self.records[b].id);
        }
        assert forall|i: int, j: int|
            0 <= i < j < next.records.len() && (#[trigger] next.records[i]).cpf_cnpj is Some
            implies next.records[i].cpf_cnpj != (#[trigger] next.records[j]).cpf_cnpj by {
            let a = if i < t { i } else { i + 1 };
            let b = if j < t { j } else { j + 1 };
            assert(self.records[a].cpf_cnpj != self.records[b].cpf_cnpj);
        }
        assert forall|i: int, j: int|
            0 <= i < j < next.records.len() && (#[trigger] next.records[i]).email is Some
            implies next.records[i].email != (#[trigger] next.records[j]).email by {
            let a = if i < t { i } else { i + 1 };
            let b = if j < t { j } else { j + 1 };
            assert(self.records[a].email != self.records[b].email);
        }
    }
}

} // verus!
