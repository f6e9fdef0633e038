use lopdf::{Dictionary, Document, Object};
use pdf_split::{OutputFile, SourceFile, Split, Step, PDF};
use pdf_split::{BatchState, ErrMessages};

/// A document of `count` pages; page `n` is `100 + n` units wide.
fn sample_document(count: u32) -> Document {
    let mut doc = Document::with_version("1.5");
    let tree_id = doc.new_object_id();
    let mut kids = Vec::new();
    for n in 1..=count {
        let mut page = Dictionary::new();
        page.set("Type", Object::Name(b"Page".to_vec()));
        page.set("Parent", Object::Reference(tree_id));
        page.set(
            "MediaBox",
            Object::Array(vec![
                Object::Integer(0),
                Object::Integer(0),
                Object::Integer(100 + n as i64),
                Object::Integer(200),
            ]),
        );
        kids.push(Object::Reference(doc.add_object(Object::Dictionary(page))));
    }
    let mut tree = Dictionary::new();
    tree.set("Type", Object::Name(b"Pages".to_vec()));
    tree.set("Kids", Object::Array(kids));
    tree.set("Count", Object::Integer(count as i64));
    doc.objects.insert(tree_id, Object::Dictionary(tree));
    let mut catalog = Dictionary::new();
    catalog.set("Type", Object::Name(b"Catalog".to_vec()));
    catalog.set("Pages", Object::Reference(tree_id));
    let catalog_id = doc.add_object(Object::Dictionary(catalog));
    doc.trailer.set("Root", Object::Reference(catalog_id));
    doc
}

fn sample(count: u32) -> Vec<u8> {
    let mut bytes = Vec::new();
    sample_document(count).save_to(&mut bytes).unwrap();
    bytes
}

/// The numbers, in the source, of the pages that `bytes` holds.
fn pages_in(bytes: &[u8]) -> Vec<i64> {
    let doc = Document::load_mem(bytes).unwrap();
    let mut numbers = Vec::new();
    for (_, id) in doc.get_pages() {
        let page = doc.get_dictionary(id).unwrap();
        let width = page.get(b"MediaBox").unwrap().as_array().unwrap()[2].as_i64().unwrap();
        numbers.push(width - 100);
    }
    numbers
}

fn request(start: u32, end: u32, name: &str) -> Split {
    Split(start, end, name.to_string())
}

fn loaded(count: u32) -> SourceFile {
    SourceFile::Loaded(Document::load_mem(&sample(count)))
}

fn batch(count: u32, path: &str, splits: Vec<Split>) -> PDF {
    PDF::new(path, splits, loaded(count)).unwrap()
}

fn saved(step: Step) -> OutputFile {
    match step {
        Step::Save(file) => file,
        Step::Stop(result) => panic!("stopped with {:?}", result),
    }
}

#[test]
fn new_pdf() {
    let splits: Vec<Split> = vec![request(1, 4, "file1.pdf"), request(5, 8, "file2.pdf")];
    let path = "/home/paulo/Projects/Rust/pdf/src/guide.pdf";
    let pdf: PDF = PDF::new(path, splits, loaded(10)).unwrap();
    assert_eq!(pdf.splits()[0].0, 1);
}

#[test]
fn test_split() {
    let splits: Vec<Split> = vec![request(1, 4, "file1.pdf"), request(5, 8, "file2.pdf")];
    let path = "/home/paulo/Projects/Rust/pdf/src/guide.pdf";
    let pdf: PDF = PDF::new(path, splits, loaded(10)).unwrap();
    let files = pdf.split().unwrap();
    assert_eq!(files.len(), 2);
    assert_eq!(files[0].path, "/home/paulo/Projects/Rust/pdf/src/file1.pdf");
    assert_eq!(files[1].path, "/home/paulo/Projects/Rust/pdf/src/file2.pdf");
    assert_eq!(pages_in(&files[0].bytes), vec![1, 2, 3, 4]);
    assert_eq!(pages_in(&files[1].bytes), vec![5, 6, 7, 8]);
}

#[test]
fn new_pdf_keeps_requests_directory_and_page_count() {
    let pdf = batch(7, "/tmp/in/source.pdf", vec![request(2, 3, "x.pdf"), request(9, 1, "y.pdf")]);
    assert_eq!(pdf.splits().len(), 2);
    assert_eq!((pdf.splits()[1].0, pdf.splits()[1].1, pdf.splits()[1].2.as_str()), (9, 1, "y.pdf"));
    assert_eq!(pdf.target_path(), "/tmp/in/");
    assert_eq!(pdf.max_pages(), 7);
}

#[test]
fn missing_source_is_no_file() {
    let made = PDF::new("/nowhere/guide.pdf", vec![request(1, 4, "a.pdf")], SourceFile::NotFound);
    assert_eq!(made.err(), Some(ErrMessages::NoFile));
}

#[test]
fn unreadable_source_is_a_load_error() {
    let failure = std::io::Error::new(std::io::ErrorKind::PermissionDenied, "denied");
    let source = SourceFile::Loaded(Err(lopdf::Error::IO(failure)));
    let made = PDF::new("/tmp/guide.pdf", vec![request(1, 4, "a.pdf")], source);
    assert_eq!(made.err(), Some(ErrMessages::FileLoad));
}

#[test]
fn source_that_is_no_document_is_a_load_error() {
    let source = SourceFile::Loaded(Document::load_mem(b"this is no paged document"));
    let made = PDF::new("/tmp/guide.pdf", vec![request(1, 4, "a.pdf")], source);
    assert_eq!(made.err(), Some(ErrMessages::FileLoad));
    let made = PDF::new("/tmp/guide.pdf", Vec::new(), SourceFile::Loaded(Document::load_mem(b"")));
    assert_eq!(made.err(), Some(ErrMessages::FileLoad));
}

#[test]
fn new_takes_a_document_built_in_memory() {
    let pdf = PDF::new("in/s.pdf", vec![request(2, 2, "two.pdf")], SourceFile::Loaded(Ok(sample_document(4)))).unwrap();
    assert_eq!(pdf.max_pages(), 4);
    let files = pdf.split().unwrap();
    assert_eq!(files[0].path, "in/two.pdf");
    assert_eq!(pages_in(&files[0].bytes), vec![2]);
}

#[test]
fn from_loaded_takes_a_document_or_a_failure() {
    let pdf = PDF::from_loaded("dir/in.pdf", vec![request(1, 1, "a.pdf")], Ok(sample_document(3))).unwrap();
    assert_eq!(pdf.max_pages(), 3);
    assert_eq!(pdf.target_path(), "dir/");
    let made = PDF::from_loaded("dir/in.pdf", Vec::new(), Err(lopdf::Error::Header));
    assert_eq!(made.err(), Some(ErrMessages::FileLoad));
}

#[test]
fn end_to_end_ten_pages_two_requests() {
    let pdf = batch(10, "/data/in/source.pdf", vec![request(1, 4, "a.pdf"), request(5, 8, "b.pdf")]);
    let mut written: Vec<OutputFile> = Vec::new();
    let mut state = pdf.start();
    let result = loop {
        match pdf.step(state) {
            Step::Save(file) => {
                written.push(file);
                state = pdf.advance(state, true);
            }
            Step::Stop(result) => break result,
        }
    };
    assert_eq!(result, Ok(()));
    assert_eq!(state, BatchState::Done);
    assert_eq!(written.len(), 2);
    assert_eq!(written[0].path, "/data/in/a.pdf");
    assert_eq!(written[1].path, "/data/in/b.pdf");
    assert_eq!(pages_in(&written[0].bytes), vec![1, 2, 3, 4]);
    assert_eq!(pages_in(&written[1].bytes), vec![5, 6, 7, 8]);
}

#[test]
fn second_of_three_saves_fails() {
    let pdf = batch(6, "out/source.pdf", vec![request(1, 2, "a.pdf"), request(3, 4, "b.pdf"), request(5, 6, "c.pdf")]);
    let mut attempted: Vec<String> = Vec::new();
    let mut state = pdf.start();
    let result = loop {
        match pdf.step(state) {
            Step::Save(file) => {
                let ok = file.path != "out/b.pdf";
                attempted.push(file.path);
                state = pdf.advance(state, ok);
            }
            Step::Stop(result) => break result,
        }
    };
    assert_eq!(result, Err(ErrMessages::FileSave));
    assert_eq!(state, BatchState::SaveFailed);
    assert_eq!(attempted, vec!["out/a.pdf".to_string(), "out/b.pdf".to_string()]);
    assert_eq!(pdf.advance(state, true), BatchState::SaveFailed);
}

#[test]
fn batch_states_follow_the_requests() {
    let pdf = batch(3, "s.pdf", vec![request(1, 1, "a.pdf"), request(2, 2, "b.pdf")]);
    assert_eq!(pdf.start(), BatchState::Processing(0));
    assert_eq!(pdf.advance(BatchState::Processing(0), true), BatchState::Processing(1));
    assert_eq!(pdf.advance(BatchState::Processing(1), true), BatchState::Done);
    assert_eq!(pdf.advance(BatchState::Processing(0), false), BatchState::SaveFailed);
    assert_eq!(pdf.advance(BatchState::Processing(1), false), BatchState::SaveFailed);
    assert_eq!(pdf.advance(BatchState::Processing(2), true), BatchState::Done);
    assert_eq!(pdf.advance(BatchState::Processing(usize::MAX), false), BatchState::Done);
    assert_eq!(pdf.advance(BatchState::Done, false), BatchState::Done);
    assert_eq!(pdf.advance(BatchState::SaveFailed, true), BatchState::SaveFailed);
    assert_eq!(BatchState::start(0), BatchState::Done);
    assert_eq!(BatchState::start(5), BatchState::Processing(0));
    assert_eq!(BatchState::Processing(0).advance(1, true), BatchState::Done);
}

#[test]
fn steps_of_the_final_states_stop() {
    let pdf = batch(3, "s.pdf", vec![request(1, 1, "a.pdf")]);
    assert!(matches!(pdf.step(BatchState::Done), Step::Stop(Ok(()))));
    assert!(matches!(pdf.step(BatchState::SaveFailed), Step::Stop(Err(ErrMessages::FileSave))));
    assert!(matches!(pdf.step(BatchState::Processing(1)), Step::Stop(Ok(()))));
    assert_eq!(saved(pdf.step(BatchState::Processing(0))).path, "a.pdf");
}

#[test]
fn empty_batch_is_done_at_once() {
    let pdf = batch(3, "s.pdf", Vec::new());
    assert_eq!(pdf.start(), BatchState::Done);
    assert!(matches!(pdf.step(pdf.start()), Step::Stop(Ok(()))));
    assert_eq!(pdf.split().unwrap().len(), 0);
}

#[test]
fn output_goes_to_the_working_directory_without_a_separator() {
    let pdf = batch(2, "source.pdf", vec![request(1, 1, "one.pdf")]);
    assert_eq!(pdf.target_path(), "");
    assert_eq!(pdf.split().unwrap()[0].path, "one.pdf");
}

#[test]
fn extract_keeps_exactly_the_range_in_order() {
    let pdf = batch(9, "/d/s.pdf", Vec::new());
    for start in 1..=9u32 {
        for end in start..=9u32 {
            let file = pdf.extract(&request(start, end, "o.pdf")).unwrap();
            let expected: Vec<i64> = (start as i64..=end as i64).collect();
            assert_eq!(pages_in(&file.bytes), expected);
            assert_eq!(expected.len() as u32, end - start + 1);
            assert_eq!(file.path, "/d/o.pdf");
        }
    }
}

#[test]
fn extract_at_the_boundaries() {
    let pdf = batch(5, "s.pdf", Vec::new());
    assert_eq!(pages_in(&pdf.extract(&request(1, 2, "o")).unwrap().bytes), vec![1, 2]);
    assert_eq!(pages_in(&pdf.extract(&request(4, 5, "o")).unwrap().bytes), vec![4, 5]);
    assert_eq!(pages_in(&pdf.extract(&request(3, 3, "o")).unwrap().bytes), vec![3]);
    assert_eq!(pages_in(&pdf.extract(&request(1, 5, "o")).unwrap().bytes), vec![1, 2, 3, 4, 5]);
}

#[test]
fn extract_outside_the_document() {
    let pdf = batch(5, "s.pdf", Vec::new());
    assert_eq!(pages_in(&pdf.extract(&request(4, 9, "o")).unwrap().bytes), vec![4, 5]);
    assert_eq!(pages_in(&pdf.extract(&request(6, 9, "o")).unwrap().bytes), Vec::<i64>::new());
    assert_eq!(pages_in(&pdf.extract(&request(4, 2, "o")).unwrap().bytes), Vec::<i64>::new());
    assert_eq!(pages_in(&pdf.extract(&request(0, 2, "o")).unwrap().bytes), vec![1, 2]);
}

#[test]
fn extract_leaves_the_source_as_it_was() {
    let pdf = batch(6, "s.pdf", Vec::new());
    let first = pdf.extract(&request(2, 3, "o")).unwrap();
    assert_eq!(pdf.max_pages(), 6);
    let whole = pdf.extract(&request(1, 6, "o")).unwrap();
    assert_eq!(pages_in(&whole.bytes), vec![1, 2, 3, 4, 5, 6]);
    let again = pdf.extract(&request(2, 3, "o")).unwrap();
    assert_eq!(first.bytes, again.bytes);
}

#[test]
fn outputs_do_not_depend_on_the_order_of_the_requests() {
    let requests = || vec![request(1, 4, "a.pdf"), request(5, 8, "b.pdf"), request(3, 6, "c.pdf")];
    let forward = batch(10, "/x/s.pdf", requests()).split().unwrap();
    let mut reversed = requests();
    reversed.reverse();
    let backward = batch(10, "/x/s.pdf", reversed).split().unwrap();
    for i in 0..3 {
        assert_eq!(forward[i].path, backward[2 - i].path);
        assert_eq!(forward[i].bytes, backward[2 - i].bytes);
    }
    let alone = batch(10, "/x/s.pdf", vec![request(5, 8, "b.pdf")]).split().unwrap();
    assert_eq!(alone[0].bytes, forward[1].bytes);
}

#[test]
fn running_a_batch_twice_gives_the_same_outputs() {
    let pdf = batch(10, "/x/s.pdf", vec![request(1, 4, "a.pdf"), request(5, 8, "b.pdf")]);
    let first = pdf.split().unwrap();
    let second = pdf.split().unwrap();
    let third = batch(10, "/x/s.pdf", vec![request(1, 4, "a.pdf"), request(5, 8, "b.pdf")]).split().unwrap();
    for i in 0..2 {
        assert_eq!(first[i].path, second[i].path);
        assert_eq!(first[i].bytes, second[i].bytes);
        assert_eq!(first[i].bytes, third[i].bytes);
    }
}

#[test]
fn same_name_twice_gives_two_outputs_for_one_path() {
    let files = batch(4, "d/s.pdf", vec![request(1, 2, "o.pdf"), request(3, 4, "o.pdf")]).split().unwrap();
    assert_eq!(files[0].path, files[1].path);
    assert_eq!(pages_in(&files[0].bytes), vec![1, 2]);
    assert_eq!(pages_in(&files[1].bytes), vec![3, 4]);
}

#[test]
fn document_whose_pages_are_listed_twice_yields_no_wrong_output() {
    let mut doc = sample_document(3);
    let tree_id = (1, 0);
    let first = doc.get_pages()[&1];
    let tree = doc.objects.get_mut(&tree_id).unwrap().as_dict_mut().unwrap();
    tree.get_mut(b"Kids").unwrap().as_array_mut().unwrap().push(Object::Reference(first));
    assert_eq!(doc.get_pages().len(), 4);
    let pdf = PDF::from_loaded("s.pdf", Vec::new(), Ok(doc)).unwrap();
    assert_eq!(pdf.extract(&request(2, 4, "o")).err(), Some(ErrMessages::FileSave));
    assert_eq!(pages_in(&pdf.extract(&request(1, 4, "o")).unwrap().bytes), vec![1, 2, 3, 1]);
}

fn set_in_tree(doc: &mut Document, key: &str, value: Object) {
    doc.objects.get_mut(&(1, 0)).unwrap().as_dict_mut().unwrap().set(key, value);
}

#[test]
fn page_tree_that_is_its_own_parent_is_refused() {
    let mut doc = sample_document(3);
    set_in_tree(&mut doc, "Parent", Object::Reference((1, 0)));
    let made = PDF::from_loaded("s.pdf", vec![request(1, 1, "a.pdf")], Ok(doc));
    assert_eq!(made.err(), Some(ErrMessages::FileLoad));
}

#[test]
fn parents_that_run_in_a_circle_are_refused() {
    let mut doc = sample_document(3);
    let mut upper = Dictionary::new();
    upper.set("Type", Object::Name(b"Pages".to_vec()));
    upper.set("Parent", Object::Reference((1, 0)));
    let upper_id = doc.add_object(Object::Dictionary(upper));
    set_in_tree(&mut doc, "Parent", Object::Reference(upper_id));
    let made = PDF::new("s.pdf", Vec::new(), SourceFile::Loaded(Ok(doc)));
    assert_eq!(made.err(), Some(ErrMessages::FileLoad));
}

#[test]
fn count_at_the_least_integer_is_refused() {
    let mut doc = sample_document(3);
    set_in_tree(&mut doc, "Count", Object::Integer(i64::MIN));
    let made = PDF::from_loaded("s.pdf", Vec::new(), Ok(doc));
    assert_eq!(made.err(), Some(ErrMessages::FileLoad));
    let mut doc = sample_document(3);
    set_in_tree(&mut doc, "Count", Object::Integer(pdf_split::tree::COUNT_FLOOR - 1));
    let made = PDF::from_loaded("s.pdf", Vec::new(), Ok(doc));
    assert_eq!(made.err(), Some(ErrMessages::FileLoad));
}

#[test]
fn count_at_the_floor_is_taken() {
    assert_eq!(pdf_split::tree::COUNT_FLOOR as i128, i64::MIN as i128 + (1i128 << 32));
    let mut doc = sample_document(3);
    set_in_tree(&mut doc, "Count", Object::Integer(pdf_split::tree::COUNT_FLOOR));
    let pdf = PDF::from_loaded("s.pdf", Vec::new(), Ok(doc)).unwrap();
    assert_eq!(pages_in(&pdf.extract(&request(2, 3, "o")).unwrap().bytes), vec![2, 3]);
}

#[test]
fn upper_levels_of_the_page_tree_are_climbed() {
    let mut doc = sample_document(4);
    let mut upper = Dictionary::new();
    upper.set("Type", Object::Name(b"Pages".to_vec()));
    upper.set("Kids", Object::Array(vec![Object::Reference((1, 0))]));
    upper.set("Count", Object::Integer(4));
    let upper_id = doc.add_object(Object::Dictionary(upper));
    set_in_tree(&mut doc, "Parent", Object::Reference(upper_id));
    let catalog_id = doc.trailer.get(b"Root").unwrap().as_reference().unwrap();
    doc.objects.get_mut(&catalog_id).unwrap().as_dict_mut().unwrap().set("Pages", Object::Reference(upper_id));
    let pdf = PDF::from_loaded("s.pdf", Vec::new(), Ok(doc)).unwrap();
    assert_eq!(pdf.max_pages(), 4);
    assert_eq!(pages_in(&pdf.extract(&request(2, 3, "o")).unwrap().bytes), vec![2, 3]);
}

#[test]
fn document_without_an_object_number_left_is_not_written() {
    let mut doc = sample_document(3);
    doc.max_id = u32::MAX;
    let pdf = PDF::from_loaded("s.pdf", vec![request(1, 2, "a.pdf")], Ok(doc)).unwrap();
    assert_eq!(pdf.extract(&request(1, 2, "o")).err(), Some(ErrMessages::FileSave));
    assert_eq!(pdf.split().err(), Some(ErrMessages::FileSave));
    assert_eq!(pdf.max_pages(), 3);
}
