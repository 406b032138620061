use task_store::codec::encode_tasks;
use task_store::store::{begin_save, file_name, load_tasks, save_tasks, SaveStep, StoreRead};
use task_store::task::Task;

fn item(id: &str, task: &str, time: &str, status: &str) -> Task {
    Task::new(id.to_string(), task.to_string(), time.to_string(), status.to_string())
}

fn milk() -> Vec<Task> {
    vec![item("a", "buy milk", "2024-01-01", "pending")]
}

/// A stand-in for the host: the directory and the file it would keep on disk.
struct Disk {
    directory: bool,
    file: Option<String>,
}

impl Disk {
    fn empty() -> Disk {
        Disk { directory: false, file: None }
    }

    fn read(&self) -> StoreRead {
        match &self.file {
            None => StoreRead::Missing,
            Some(content) => StoreRead::Content(content.clone()),
        }
    }

    fn save(&mut self, tasks: &Vec<Task>) -> Result<(), String> {
        let mut step = save_tasks(tasks);
        loop {
            let outcome = match &step {
                SaveStep::CreateDirectory { .. } => {
                    self.directory = true;
                    Ok(())
                }
                SaveStep::WriteFile { content } => {
                    assert!(self.directory);
                    self.file = Some(content.clone());
                    Ok(())
                }
                SaveStep::Done { result } => return result.clone(),
            };
            step = step.advance(outcome);
        }
    }
}

#[test]
fn the_store_file_is_named_tasks_json() {
    assert_eq!(file_name(), "tasks.json");
}

#[test]
fn a_missing_file_loads_as_the_empty_list() {
    assert_eq!(load_tasks(StoreRead::Missing), Vec::new());
}

#[test]
fn an_unreadable_file_loads_as_the_empty_list() {
    assert_eq!(load_tasks(StoreRead::Unreadable), Vec::new());
}

#[test]
fn a_corrupt_file_loads_as_the_empty_list() {
    assert_eq!(load_tasks(StoreRead::Content("not json".to_string())), Vec::new());
    assert_eq!(load_tasks(StoreRead::Content("{\"id\": 1}".to_string())), Vec::new());
    assert_eq!(load_tasks(StoreRead::Content("[{\"id\": \"a\"}]".to_string())), Vec::new());
}

#[test]
fn an_empty_file_loads_as_the_empty_list() {
    assert_eq!(load_tasks(StoreRead::Content(String::new())), Vec::new());
    assert_eq!(load_tasks(StoreRead::Content("[]".to_string())), Vec::new());
}

#[test]
fn a_file_of_tasks_loads_as_those_tasks() {
    let content = "[{\"id\": \"1\", \"task\": \"Write spec\", \"time\": \"2024-01-01T10:00:00Z\", \"status\": \"done\"}]";
    assert_eq!(
        load_tasks(StoreRead::Content(content.to_string())),
        vec![item("1", "Write spec", "2024-01-01T10:00:00Z", "done")]
    );
}

#[test]
fn loading_twice_gives_the_same_list() {
    let content = encode_tasks(&milk()).unwrap();
    let first = load_tasks(StoreRead::Content(content.clone()));
    let second = load_tasks(StoreRead::Content(content));
    assert_eq!(first, second);
    assert_eq!(first, milk());
    assert_eq!(load_tasks(StoreRead::Missing), load_tasks(StoreRead::Missing));
}

#[test]
fn a_save_asks_for_the_directory_then_for_the_file() {
    let content = encode_tasks(&milk()).unwrap();
    let first = save_tasks(&milk());
    assert_eq!(first, SaveStep::CreateDirectory { content: content.clone() });
    let second = first.advance(Ok(()));
    assert_eq!(second, SaveStep::WriteFile { content });
    let third = second.advance(Ok(()));
    assert_eq!(third, SaveStep::Done { result: Ok(()) });
}

#[test]
fn a_save_writes_the_whole_list_as_indented_json() {
    let expected = "[\n  {\n    \"id\": \"a\",\n    \"task\": \"buy milk\",\n    \"time\": \"2024-01-01\",\n    \"status\": \"pending\"\n  }\n]";
    let step = save_tasks(&milk()).advance(Ok(()));
    assert_eq!(step, SaveStep::WriteFile { content: expected.to_string() });
}

#[test]
fn a_directory_that_cannot_be_made_fails_the_save() {
    let step = save_tasks(&milk()).advance(Err("permission denied".to_string()));
    assert_eq!(step, SaveStep::Done { result: Err("permission denied".to_string()) });
}

#[test]
fn a_file_that_cannot_be_written_fails_the_save() {
    let step = save_tasks(&milk()).advance(Ok(())).advance(Err("disk full".to_string()));
    assert_eq!(step, SaveStep::Done { result: Err("disk full".to_string()) });
}

#[test]
fn a_save_that_is_over_stays_over() {
    let done = save_tasks(&milk()).advance(Ok(())).advance(Ok(()));
    assert_eq!(done.advance(Err("late".to_string())), SaveStep::Done { result: Ok(()) });
    let failed = save_tasks(&milk()).advance(Err("early".to_string()));
    assert_eq!(failed.advance(Ok(())), SaveStep::Done { result: Err("early".to_string()) });
}

#[test]
fn a_list_that_could_not_be_encoded_fails_the_save_at_once() {
    assert_eq!(
        begin_save(Err("cannot encode".to_string())),
        SaveStep::Done { result: Err("cannot encode".to_string()) }
    );
    assert_eq!(
        begin_save(Ok("[]".to_string())),
        SaveStep::CreateDirectory { content: "[]".to_string() }
    );
}

#[test]
fn save_then_load_returns_the_saved_task() {
    let mut disk = Disk::empty();
    assert_eq!(disk.save(&milk()), Ok(()));
    let loaded = load_tasks(disk.read());
    assert_eq!(loaded.len(), 1);
    assert_eq!(loaded, milk());
}

#[test]
fn saving_the_empty_list_stores_an_empty_array() {
    let mut disk = Disk::empty();
    assert_eq!(disk.save(&Vec::new()), Ok(()));
    assert_eq!(disk.file, Some("[]".to_string()));
    assert_eq!(load_tasks(disk.read()), Vec::new());
}

#[test]
fn a_save_makes_the_directory_before_it_writes() {
    let mut disk = Disk::empty();
    assert!(!disk.directory);
    assert_eq!(disk.save(&milk()), Ok(()));
    assert!(disk.directory);
    assert!(disk.file.is_some());
}

#[test]
fn a_second_save_replaces_the_first() {
    let first = vec![item("1", "one", "t1", "open"), item("2", "two", "t2", "open")];
    let second = vec![item("3", "three", "t3", "done")];
    let mut disk = Disk::empty();
    assert_eq!(disk.save(&first), Ok(()));
    assert_eq!(load_tasks(disk.read()), first);
    assert_eq!(disk.save(&second), Ok(()));
    assert_eq!(load_tasks(disk.read()), second);
    assert_eq!(disk.file, Some(encode_tasks(&second).unwrap()));
}

#[test]
fn saving_the_same_list_twice_stores_the_same_text() {
    let mut disk = Disk::empty();
    assert_eq!(disk.save(&milk()), Ok(()));
    let once = disk.file.clone();
    assert_eq!(disk.save(&milk()), Ok(()));
    assert_eq!(disk.file, once);
}

#[test]
fn a_saved_list_keeps_its_order_and_its_equal_ids() {
    let tasks = vec![
        item("z", "last letter first", "2024-03-03", "pending"),
        item("a", "first letter second", "2024-01-01", "done"),
        item("a", "an id twice", "2024-01-01", "done"),
    ];
    let mut disk = Disk::empty();
    assert_eq!(disk.save(&tasks), Ok(()));
    assert_eq!(load_tasks(disk.read()), tasks);
}
