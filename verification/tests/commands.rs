use cadastro_clientes::commands::atualizar_cliente;
use cadastro_clientes::commands::cliente_data_to_view;
use cadastro_clientes::commands::cliente_not_found;
use cadastro_clientes::commands::database_fault;
use cadastro_clientes::commands::greet;
use cadastro_clientes::commands::view_with_times;
use cadastro_clientes::commands::ENTITY_CLIENTE;
use cadastro_clientes::commands::criar_cliente;
use cadastro_clientes::commands::deletar_cliente;
use cadastro_clientes::commands::listar_clientes;
use cadastro_clientes::commands::obter_cliente;
use cadastro_clientes::commands::AtualizarClienteData;
use cadastro_clientes::commands::ClienteView;
use cadastro_clientes::commands::NovoClienteData;
use cadastro_clientes::db::SharedHandle;
use cadastro_clientes::error::Error;
use cadastro_clientes::prisma::Cliente;
use cadastro_clientes::store::DETAIL_CLOCK_EXHAUSTED;
use cadastro_clientes::store::DETAIL_CPF_CNPJ_TAKEN;
use cadastro_clientes::store::DETAIL_EMAIL_TAKEN;
use cadastro_clientes::timestamp::Timestamp;
use cadastro_clientes::timestamp::MAX_SECS;

fn at(secs: i64, nanos: u32) -> Timestamp {
    Timestamp::new(secs, nanos).unwrap()
}

fn text(s: &str) -> Option<String> {
    Some(s.to_string())
}

fn novo(nome: &str, cpf: Option<&str>, email: Option<&str>) -> NovoClienteData {
    NovoClienteData {
        nome: nome.to_string(),
        cpf_cnpj: cpf.map(|s| s.to_string()),
        email: email.map(|s| s.to_string()),
        telefone: None,
        endereco: None,
        observacao: None,
    }
}

fn no_change() -> AtualizarClienteData {
    AtualizarClienteData {
        nome: None,
        cpf_cnpj: None,
        email: None,
        telefone: None,
        endereco: None,
        observacao: None,
    }
}

fn not_found(id: &str) -> Error {
    Error::NotFound { entity: "Cliente".to_string(), id: id.to_string() }
}

fn fault(detail: &str) -> Error {
    Error::DatabaseQuery { source: detail.to_string() }
}

#[test]
fn create_update_delete_get() {
    let mut handle = SharedHandle::new();
    let created =
        criar_cliente(&mut handle, novo("Ana Silva", None, Some("ana@x.com")), at(1_700_000_000, 0))
            .unwrap();
    assert_eq!(
        created,
        ClienteView {
            id: "1".to_string(),
            nome: "Ana Silva".to_string(),
            cpf_cnpj: None,
            email: text("ana@x.com"),
            telefone: None,
            endereco: None,
            observacao: None,
            created_at: "2023-11-14T22:13:20+00:00".to_string(),
            updated_at: "2023-11-14T22:13:20+00:00".to_string(),
        }
    );
    let mut patch = no_change();
    patch.email = text("ana2@x.com");
    let changed =
        atualizar_cliente(&mut handle, created.id.clone(), patch, at(1_700_000_060, 500_000_000))
            .unwrap();
    assert_eq!(
        changed,
        ClienteView {
            id: "1".to_string(),
            nome: "Ana Silva".to_string(),
            cpf_cnpj: None,
            email: text("ana2@x.com"),
            telefone: None,
            endereco: None,
            observacao: None,
            created_at: "2023-11-14T22:13:20+00:00".to_string(),
            updated_at: "2023-11-14T22:14:20.500+00:00".to_string(),
        }
    );
    assert!(changed.updated_at > changed.created_at);
    assert_eq!(deletar_cliente(&mut handle, created.id.clone()), Ok("1".to_string()));
    assert_eq!(obter_cliente(&mut handle, created.id), Err(not_found("1")));
}

#[test]
fn created_client_is_read_back_as_it_was_answered() {
    let mut handle = SharedHandle::new();
    let created = criar_cliente(
        &mut handle,
        NovoClienteData {
            nome: "Bia".to_string(),
            cpf_cnpj: text("12.345.678/0001-00"),
            email: text("bia@x.com"),
            telefone: text("5555-0102"),
            endereco: text("Rua B, 2"),
            observacao: text("liga depois"),
        },
        at(0, 1),
    )
    .unwrap();
    assert_eq!(created.nome, "Bia");
    assert_eq!(created.cpf_cnpj, text("12.345.678/0001-00"));
    assert_eq!(created.email, text("bia@x.com"));
    assert_eq!(created.telefone, text("5555-0102"));
    assert_eq!(created.endereco, text("Rua B, 2"));
    assert_eq!(created.observacao, text("liga depois"));
    assert_eq!(created.created_at, "1970-01-01T00:00:00.000000001+00:00");
    assert_eq!(created.created_at, created.updated_at);
    assert_eq!(obter_cliente(&mut handle, created.id.clone()), Ok(created));
}

#[test]
fn omitted_fields_are_absent() {
    let mut handle = SharedHandle::new();
    let created = criar_cliente(&mut handle, novo("Caio", None, None), at(5, 0)).unwrap();
    assert_eq!(created.cpf_cnpj, None);
    assert_eq!(created.email, None);
    assert_eq!(created.telefone, None);
    assert_eq!(created.endereco, None);
    assert_eq!(created.observacao, None);
    let read = obter_cliente(&mut handle, "1".to_string()).unwrap();
    assert_eq!(read, created);
}

#[test]
fn name_is_not_validated() {
    let mut handle = SharedHandle::new();
    let created = criar_cliente(&mut handle, novo("", None, Some("not an email")), at(5, 0)).unwrap();
    assert_eq!(created.nome, "");
    assert_eq!(created.email, text("not an email"));
}

#[test]
fn listing_is_in_creation_order() {
    let mut handle = SharedHandle::new();
    assert_eq!(listar_clientes(&mut handle), Ok(vec![]));
    let a = criar_cliente(&mut handle, novo("a", None, None), at(3, 0)).unwrap();
    let b = criar_cliente(&mut handle, novo("b", None, None), at(2, 0)).unwrap();
    let c = criar_cliente(&mut handle, novo("c", None, None), at(1, 0)).unwrap();
    assert_eq!(listar_clientes(&mut handle), Ok(vec![a, b, c]));
    assert_eq!(listar_clientes(&mut handle), listar_clientes(&mut handle));
}

#[test]
fn listing_fills_a_fresh_handle_once() {
    let mut handle = SharedHandle::new();
    assert!(!handle.is_initialized());
    for _ in 0..4 {
        assert_eq!(listar_clientes(&mut handle), Ok(vec![]));
        assert!(handle.is_initialized());
    }
    criar_cliente(&mut handle, novo("a", None, None), at(3, 0)).unwrap();
    for _ in 0..4 {
        assert_eq!(listar_clientes(&mut handle).unwrap().len(), 1);
    }
}

#[test]
fn update_keeps_untouched_fields() {
    let mut handle = SharedHandle::new();
    let before = criar_cliente(
        &mut handle,
        NovoClienteData {
            nome: "Dora".to_string(),
            cpf_cnpj: text("111"),
            email: text("dora@x.com"),
            telefone: None,
            endereco: text("Rua D"),
            observacao: None,
        },
        at(1_000, 0),
    )
    .unwrap();
    let mut patch = no_change();
    patch.nome = text("Dora M.");
    patch.telefone = text("5555-0104");
    let answered = atualizar_cliente(&mut handle, "1".to_string(), patch, at(2_000, 0)).unwrap();
    let read = obter_cliente(&mut handle, "1".to_string()).unwrap();
    assert_eq!(answered, read);
    assert_eq!(read.id, before.id);
    assert_eq!(read.nome, "Dora M.");
    assert_eq!(read.telefone, text("5555-0104"));
    assert_eq!(read.cpf_cnpj, before.cpf_cnpj);
    assert_eq!(read.email, before.email);
    assert_eq!(read.endereco, before.endereco);
    assert_eq!(read.observacao, before.observacao);
    assert_eq!(read.created_at, before.created_at);
    assert_eq!(read.created_at, "1970-01-01T00:16:40+00:00");
    assert_eq!(read.updated_at, "1970-01-01T00:33:20+00:00");
}

#[test]
fn update_time_strictly_increases_under_a_clock_that_stands_still() {
    let mut handle = SharedHandle::new();
    criar_cliente(&mut handle, novo("a", None, None), at(1_000, 0)).unwrap();
    let first = atualizar_cliente(&mut handle, "1".to_string(), no_change(), at(1_000, 0)).unwrap();
    assert_eq!(first.created_at, "1970-01-01T00:16:40+00:00");
    assert_eq!(first.updated_at, "1970-01-01T00:16:40.000000001+00:00");
    let second = atualizar_cliente(&mut handle, "1".to_string(), no_change(), at(999, 0)).unwrap();
    assert_eq!(second.updated_at, "1970-01-01T00:16:40.000000002+00:00");
}

#[test]
fn update_leaves_other_clients_alone() {
    let mut handle = SharedHandle::new();
    let a = criar_cliente(&mut handle, novo("a", Some("1"), None), at(1, 0)).unwrap();
    criar_cliente(&mut handle, novo("b", Some("2"), None), at(1, 0)).unwrap();
    let c = criar_cliente(&mut handle, novo("c", Some("3"), None), at(1, 0)).unwrap();
    let mut patch = no_change();
    patch.observacao = text("x");
    let b = atualizar_cliente(&mut handle, "2".to_string(), patch, at(2, 0)).unwrap();
    assert_eq!(listar_clientes(&mut handle), Ok(vec![a, b, c]));
}

#[test]
fn delete_then_get_is_not_found() {
    let mut handle = SharedHandle::new();
    let a = criar_cliente(&mut handle, novo("a", None, None), at(1, 0)).unwrap();
    let b = criar_cliente(&mut handle, novo("b", None, None), at(1, 0)).unwrap();
    assert_eq!(deletar_cliente(&mut handle, b.id.clone()), Ok(b.id.clone()));
    assert_eq!(obter_cliente(&mut handle, b.id.clone()), Err(not_found("2")));
    assert_eq!(deletar_cliente(&mut handle, b.id), Err(not_found("2")));
    assert_eq!(listar_clientes(&mut handle), Ok(vec![a]));
}

#[test]
fn second_client_with_the_same_tax_id_is_refused() {
    let mut handle = SharedHandle::new();
    criar_cliente(&mut handle, novo("a", Some("111"), None), at(1, 0)).unwrap();
    assert_eq!(
        criar_cliente(&mut handle, novo("b", Some("111"), None), at(2, 0)),
        Err(fault(DETAIL_CPF_CNPJ_TAKEN))
    );
    let listed = listar_clientes(&mut handle).unwrap();
    assert_eq!(listed.iter().filter(|v| v.cpf_cnpj == text("111")).count(), 1);
    assert_eq!(listed.len(), 1);
}

#[test]
fn second_client_with_the_same_email_is_refused() {
    let mut handle = SharedHandle::new();
    criar_cliente(&mut handle, novo("a", None, Some("a@x.com")), at(1, 0)).unwrap();
    criar_cliente(&mut handle, novo("b", None, Some("b@x.com")), at(1, 0)).unwrap();
    let refused = criar_cliente(&mut handle, novo("c", None, Some("a@x.com")), at(2, 0));
    assert_eq!(refused, Err(fault(DETAIL_EMAIL_TAKEN)));
    assert!(refused.unwrap_err().is_storage_fault());
    let listed = listar_clientes(&mut handle).unwrap();
    assert_eq!(listed.iter().filter(|v| v.email == text("a@x.com")).count(), 1);
    assert_eq!(listed.len(), 2);
}

#[test]
fn update_into_a_tax_id_in_use_is_a_storage_fault() {
    let mut handle = SharedHandle::new();
    criar_cliente(&mut handle, novo("a", Some("111"), None), at(1, 0)).unwrap();
    criar_cliente(&mut handle, novo("b", Some("222"), None), at(1, 0)).unwrap();
    let before = listar_clientes(&mut handle).unwrap();
    let mut patch = no_change();
    patch.cpf_cnpj = text("111");
    assert_eq!(
        atualizar_cliente(&mut handle, "2".to_string(), patch, at(2, 0)),
        Err(fault(DETAIL_CPF_CNPJ_TAKEN))
    );
    assert_eq!(listar_clientes(&mut handle), Ok(before));
}

#[test]
fn update_at_the_last_instant_is_a_storage_fault() {
    let last = at(MAX_SECS, 999_999_999);
    let mut handle = SharedHandle::new();
    criar_cliente(&mut handle, novo("a", None, None), last).unwrap();
    assert_eq!(
        atualizar_cliente(&mut handle, "1".to_string(), no_change(), last),
        Err(fault(DETAIL_CLOCK_EXHAUSTED))
    );
}

#[test]
fn unknown_identifier_is_not_found_and_nothing_changes() {
    let mut handle = SharedHandle::new();
    criar_cliente(&mut handle, novo("a", Some("111"), Some("a@x.com")), at(1, 0)).unwrap();
    let before = listar_clientes(&mut handle).unwrap();
    let id = "nonexistent-id";
    assert_eq!(obter_cliente(&mut handle, id.to_string()), Err(not_found(id)));
    let mut patch = no_change();
    patch.nome = text("changed");
    assert_eq!(atualizar_cliente(&mut handle, id.to_string(), patch, at(2, 0)), Err(not_found(id)));
    assert_eq!(deletar_cliente(&mut handle, id.to_string()), Err(not_found(id)));
    assert_eq!(listar_clientes(&mut handle), Ok(before));
}

#[test]
fn unknown_identifier_on_a_fresh_handle() {
    let mut handle = SharedHandle::new();
    assert_eq!(obter_cliente(&mut handle, "1".to_string()), Err(not_found("1")));
    assert_eq!(deletar_cliente(&mut handle, "".to_string()), Err(not_found("")));
    assert!(handle.is_initialized());
}

#[test]
fn commands_address_by_identifier_only() {
    let mut handle = SharedHandle::new();
    criar_cliente(&mut handle, novo("a", Some("111"), Some("a@x.com")), at(1, 0)).unwrap();
    assert_eq!(obter_cliente(&mut handle, "111".to_string()), Err(not_found("111")));
    assert_eq!(obter_cliente(&mut handle, "a@x.com".to_string()), Err(not_found("a@x.com")));
}

#[test]
fn not_found_names_the_entity() {
    assert_eq!(cliente_not_found("9".to_string()), not_found("9"));
    assert_eq!(ENTITY_CLIENTE, "Cliente");
    assert!(cliente_not_found("9".to_string()).is_not_found());
    assert!(!cliente_not_found("9".to_string()).is_storage_fault());
}

#[test]
fn store_fault_keeps_its_detail() {
    assert_eq!(database_fault("x".to_string()), fault("x"));
    assert!(database_fault("x".to_string()).is_storage_fault());
    assert!(!database_fault("x".to_string()).is_not_found());
}

#[test]
fn error_kinds_are_told_apart() {
    let io = Error::Io { source: "x".to_string() };
    let unknown = Error::Unknown("x".to_string());
    assert!(!io.is_storage_fault() && !io.is_not_found());
    assert!(!unknown.is_storage_fault() && !unknown.is_not_found());
    assert_ne!(io, unknown);
    assert_ne!(fault("x"), io);
}

#[test]
fn greeting_holds_the_name() {
    assert_eq!(greet("Ana"), "Hello, Ana! You've been greeted from Rust!");
    assert_eq!(greet(""), "Hello, ! You've been greeted from Rust!");
}

#[test]
fn view_takes_the_texts_it_is_given() {
    let view = view_with_times(
        Cliente {
            id: "3".to_string(),
            nome: "Eva".to_string(),
            cpf_cnpj: None,
            email: text("eva@x.com"),
            telefone: None,
            endereco: text("Rua E"),
            observacao: None,
            created_at: at(1, 0),
            updated_at: at(2, 0),
        },
        "first".to_string(),
        "second".to_string(),
    );
    assert_eq!(
        view,
        ClienteView {
            id: "3".to_string(),
            nome: "Eva".to_string(),
            cpf_cnpj: None,
            email: text("eva@x.com"),
            telefone: None,
            endereco: text("Rua E"),
            observacao: None,
            created_at: "first".to_string(),
            updated_at: "second".to_string(),
        }
    );
}

#[test]
fn view_copies_fields_and_writes_times() {
    let view = cliente_data_to_view(Cliente {
        id: "77".to_string(),
        nome: "Eva".to_string(),
        cpf_cnpj: text("1"),
        email: None,
        telefone: text("2"),
        endereco: None,
        observacao: text("3"),
        created_at: at(1_431_648_000, 0),
        updated_at: at(1_516_991_409, 453_829_000),
    });
    assert_eq!(
        view,
        ClienteView {
            id: "77".to_string(),
            nome: "Eva".to_string(),
            cpf_cnpj: text("1"),
            email: None,
            telefone: text("2"),
            endereco: None,
            observacao: text("3"),
            created_at: "2015-05-15T00:00:00+00:00".to_string(),
            updated_at: "2018-01-26T18:30:09.453829+00:00".to_string(),
        }
    );
}
