use sss::server::{Server, Step, Tried};
use sss::{Builder, OutputFile, Progress, SourceFile, Walk};

fn step(request: &str, tried: Tried) -> (u8, String) {
    match Server::serve(request, tried) {
        Step::Static(path) => (1, path),
        Step::Html(path) => (2, path),
        Step::NotFound => (3, String::new()),
    }
}

fn answer(tree: &[OutputFile], request: &str) -> (u16, Vec<u8>) {
    let mut tried = Tried::Nothing;
    loop {
        let path = match Server::serve(request, tried) {
            Step::Static(path) => path,
            Step::Html(path) => path,
            Step::NotFound => return (404, Vec::new()),
        };
        if let Some(file) = tree.iter().find(|file| file.path == path) {
            return (200, file.contents.clone());
        }
        tried = match tried {
            Tried::Nothing => Tried::Literal,
            _ => Tried::Both,
        };
    }
}

fn run(engine: &mut tera::Tera, sources: Vec<SourceFile>) -> Vec<OutputFile> {
    let mut progress = Builder::build(Walk::new(sources), None);
    loop {
        progress = match progress {
            Progress::Render(walk, job) => {
                let context = Builder::context(&job).unwrap();
                Builder::build(walk, Some(engine.render_str(&job.template, &context)))
            }
            Progress::Done(report) => {
                assert!(report.failure.is_none());
                return report.outputs;
            }
        };
    }
}

fn tree() -> Vec<OutputFile> {
    let mut engine = tera::Tera::default();
    engine.add_raw_template("post.html", "{% block content %}{% endblock content %}").unwrap();
    let sources = vec![
        SourceFile {
            path: "post/a.md".to_string(),
            contents: b"---\ntype: post\n---\n# Hello".to_vec(),
        },
        SourceFile { path: "style.css".to_string(), contents: b"a {}".to_vec() },
        SourceFile { path: "notes".to_string(), contents: b"plain".to_vec() },
        SourceFile { path: "notes.html".to_string(), contents: b"<p>notes</p>".to_vec() },
    ];
    run(&mut engine, sources)
}

#[test]
fn serve_tries_the_path_as_it_is_first() {
    assert_eq!(step("post/a", Tried::Nothing), (1, "post/a".to_string()));
    assert_eq!(step("style.css", Tried::Nothing), (1, "style.css".to_string()));
    assert_eq!(step("", Tried::Nothing), (1, "".to_string()));
    assert_eq!(step("", Tried::Literal), (2, "".to_string()));
}

#[test]
fn serve_tries_the_path_with_html_next() {
    assert_eq!(step("post/a", Tried::Literal), (2, "post/a.html".to_string()));
    assert_eq!(step("post/a.txt", Tried::Literal), (2, "post/a.html".to_string()));
    assert_eq!(step("post/a.html", Tried::Literal), (2, "post/a.html".to_string()));
    assert_eq!(step("post.d/a", Tried::Literal), (2, "post.d/a.html".to_string()));
    assert_eq!(step("post/", Tried::Literal), (2, "post.html".to_string()));
    assert_eq!(step("post//", Tried::Literal), (2, "post.html".to_string()));
    assert_eq!(step("post.d/", Tried::Literal), (2, "post.html".to_string()));
}

#[test]
fn serve_gives_up_after_both() {
    assert_eq!(step("post/a", Tried::Both), (3, String::new()));
}

#[test]
fn request_without_extension_is_answered_by_the_html_file() {
    let tree = tree();
    assert_eq!(answer(&tree, "post/a"), (200, b"\n<h1>Hello</h1>\n\n".to_vec()));
}

#[test]
fn request_for_a_missing_path_is_not_found() {
    let tree = tree();
    assert_eq!(answer(&tree, "missing"), (404, Vec::new()));
    assert_eq!(answer(&tree, "post/b.html"), (404, Vec::new()));
}

#[test]
fn request_for_an_existing_file_is_answered_by_it() {
    let tree = tree();
    assert_eq!(answer(&tree, "style.css"), (200, b"a {}".to_vec()));
    assert_eq!(answer(&tree, "post/a.html"), (200, b"\n<h1>Hello</h1>\n\n".to_vec()));
    assert_eq!(answer(&tree, "notes"), (200, b"plain".to_vec()));
    assert_eq!(answer(&tree, "notes.html"), (200, b"<p>notes</p>".to_vec()));
}

#[test]
fn request_with_another_extension_falls_back_to_the_html_file() {
    let tree = tree();
    assert_eq!(answer(&tree, "post/a.txt"), (200, b"\n<h1>Hello</h1>\n\n".to_vec()));
    assert_eq!(answer(&tree, "style"), (404, Vec::new()));
}

#[test]
fn request_for_a_page_with_a_dot_in_its_name_needs_the_extension() {
    let mut engine = tera::Tera::default();
    engine.add_raw_template("post.html", "{% block content %}{% endblock content %}").unwrap();
    let sources = vec![SourceFile {
        path: "v1.2.md".to_string(),
        contents: b"---\ntype: post\n---\nnotes".to_vec(),
    }];
    let tree = run(&mut engine, sources);
    assert_eq!(tree[0].path, "v1.2.html");
    assert_eq!(answer(&tree, "v1.2.html"), (200, b"\n<p>notes</p>\n\n".to_vec()));
    assert_eq!(answer(&tree, "v1.2"), (404, Vec::new()));
    assert_eq!(step("v1.2", Tried::Literal), (2, "v1.html".to_string()));
}

#[test]
fn request_that_leads_outside_is_not_found() {
    for request in [
        "..",
        "../template/post",
        "../content/a.md",
        "post/../../secret",
        "post/..",
        "a/../b.html",
        "/etc/passwd",
        "/",
        "//post/a",
    ] {
        for tried in [Tried::Nothing, Tried::Literal, Tried::Both] {
            assert_eq!(step(request, tried), (3, String::new()), "{}", request);
        }
    }
    let tree = tree();
    assert_eq!(answer(&tree, "post/../style.css"), (404, Vec::new()));
    assert_eq!(answer(&tree, "../out/style.css"), (404, Vec::new()));
}

#[test]
fn request_with_dots_that_are_no_parent_segment_is_served() {
    assert_eq!(step("...", Tried::Nothing), (1, "...".to_string()));
    assert_eq!(step("a..b/c", Tried::Nothing), (1, "a..b/c".to_string()));
    assert_eq!(step("..a/b", Tried::Literal), (2, "..a/b.html".to_string()));
    assert_eq!(step("a../b", Tried::Literal), (2, "a../b.html".to_string()));
    assert_eq!(step("./a", Tried::Literal), (2, "./a.html".to_string()));
    assert_eq!(step(".", Tried::Literal), (2, "..html".to_string()));
}
