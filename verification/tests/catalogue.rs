use once_cell::sync::OnceCell;
use photolibrariancore::catalogue::{
    default_service, found_service, install_outcome, install_service, join_outcome, CatalogueError,
    CatalogueService,
};
use std::sync::{Arc, Mutex};

type Failure = CatalogueError<String>;

struct Counter {
    value: i64,
}

fn service_over(value: i64) -> CatalogueService<Counter> {
    CatalogueService::with_arc(Arc::new(Mutex::new(Some(Counter { value }))))
}

fn read(counter: &mut Counter) -> Result<i64, Failure> {
    Ok(counter.value)
}

async fn on_connection<R, F>(service: &CatalogueService<Counter>, f: F) -> Result<R, Failure>
where
    F: FnOnce(&mut Counter) -> Result<R, Failure> + Send + 'static,
    R: Send + 'static,
{
    let slot = service.shared_slot();
    let joined = tokio::task::spawn_blocking(move || {
        let mut guard = slot.lock().expect("catalogue mutex poisoned");
        CatalogueService::with_connection(&mut *guard, f)
    })
    .await;
    join_outcome(joined)
}

fn runtime() -> tokio::runtime::Runtime {
    tokio::runtime::Builder::new_multi_thread().worker_threads(4).build().expect("runtime")
}

#[test]
fn with_connection_serializes_concurrent_writes() {
    const N: usize = 50;
    let service = Arc::new(service_over(0));
    let final_value = runtime().block_on(async {
        let mut handles = Vec::with_capacity(N);
        for _ in 0..N {
            let svc = Arc::clone(&service);
            handles.push(tokio::spawn(async move {
                on_connection(&svc, |counter| {
                    let current = counter.value;
                    counter.value = current + 1;
                    Ok(())
                })
                .await
                .expect("with_connection should succeed");
            }));
        }
        for h in handles {
            h.await.expect("task should complete");
        }
        on_connection(&service, read).await.expect("read final value")
    });
    assert_eq!(
        final_value, N as i64,
        "concurrent writes through with_connection must serialize"
    );
}

#[test]
fn empty_slot_is_not_initialized() {
    let mut slot: Option<Counter> = None;
    let r = CatalogueService::with_connection(&mut slot, read);
    assert!(matches!(r, Err(CatalogueError::NotInitialized)));
    assert!(slot.is_none());
}

#[test]
fn errors_of_the_closure_come_through() {
    let mut slot = Some(Counter { value: 1 });
    let r: Result<(), Failure> = CatalogueService::with_connection(&mut slot, |counter: &mut Counter| {
        counter.value = 2;
        let refused: Result<(), String> = Err("table is gone".to_string());
        refused?;
        Ok(())
    });
    assert_eq!(r.unwrap_err().message(), "duckdb error: table is gone");
    assert_eq!(slot.unwrap().value, 2);
}

#[test]
fn services_over_one_slot_share_it() {
    let slot = Arc::new(Mutex::new(Some(Counter { value: 3 })));
    let a = CatalogueService::with_arc(Arc::clone(&slot));
    let b = CatalogueService::with_arc(Arc::clone(&slot));
    assert!(Arc::ptr_eq(&a.shared_slot(), &slot));
    assert!(Arc::ptr_eq(&a.shared_slot(), &b.shared_slot()));
}

#[test]
fn panicking_task_is_a_join_error() {
    let service = service_over(0);
    let r: Result<(), Failure> =
        runtime().block_on(on_connection(&service, |_| panic!("closure failed")));
    let error = r.unwrap_err();
    assert!(matches!(error, CatalogueError::TaskJoin(_)));
    let shown = error.message();
    assert!(shown.starts_with("catalogue task join error: task "));
    assert!(shown.ends_with("panicked with message \"closure failed\""));
}

#[test]
fn result_of_a_joined_task() {
    let r: Result<u8, Failure> = join_outcome(Ok(Ok(4)));
    assert_eq!(r.unwrap(), 4);
    let r: Result<u8, Failure> = join_outcome(Ok(Err(CatalogueError::NotInitialized)));
    assert!(matches!(r, Err(CatalogueError::NotInitialized)));
}

#[test]
fn messages() {
    assert_eq!(Failure::NotInitialized.message(), "catalogue not initialized");
    assert_eq!(Failure::AlreadyInitialized.message(), "catalogue already initialized");
    assert_eq!(Failure::from("disk".to_string()).message(), "duckdb error: disk");
}

#[test]
fn process_has_one_service() {
    let cell: OnceCell<CatalogueService<Counter>> = OnceCell::new();
    let early = default_service(&cell);
    assert_eq!(
        early.err(),
        Some("catalogue not initialized: initialize_catalogue must run before any catalogue call")
    );
    let first: Result<(), Failure> = install_service(&cell, service_over(1));
    assert!(first.is_ok());
    let second: Result<(), Failure> = install_service(&cell, service_over(2));
    assert!(matches!(second, Err(CatalogueError::AlreadyInitialized)));
    let service = default_service(&cell).ok().expect("service");
    let value = service.shared_slot().lock().expect("lock").as_ref().map(|c| c.value);
    assert_eq!(value, Some(1));
}

#[test]
fn outcomes_of_the_cell() {
    let service = service_over(5);
    assert!(found_service(Some(&service)).is_ok());
    assert!(found_service::<Counter>(None).is_err());
    let filled: Result<(), Failure> = install_outcome::<Counter, String>(Ok(()));
    assert!(filled.is_ok());
    let full: Result<(), Failure> = install_outcome(Err(service));
    assert!(matches!(full, Err(CatalogueError::AlreadyInitialized)));
}
