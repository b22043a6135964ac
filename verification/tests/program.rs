use spectra::render::shader::program::{annotate_shader, lines};

#[test]
fn lines_split_like_rust() {
    let texts = [
        "", "\n", "a", "a\n", "a\nb", "a\r\nb\r\n", "a\r", "a\r\r\nb", "\n\nx\n", "\r\n", "é\nü\r\n",
        "line one\n  line two\r\n\tthree",
    ];
    for t in texts.iter() {
        let expected: Vec<String> = t.lines().map(|l| l.to_owned()).collect();
        assert_eq!(lines(t), expected, "{:?}", t);
    }
}

#[test]
fn shader_annotation() {
    let src = "void main() {\n  gl_Position = vec4(0.);\n}\n";
    assert_eq!(
        annotate_shader(src),
        vec!["  1: void main() {", "  2:   gl_Position = vec4(0.);", "  3: }"]
    );
    let long: String = (0..1000).map(|_| "x\n").collect();
    let a = annotate_shader(&long);
    assert_eq!(a.len(), 1000);
    assert_eq!(a[8], "  9: x");
    assert_eq!(a[99], "100: x");
    assert_eq!(a[999], "1000: x");
    for (i, line) in a.iter().enumerate() {
        assert_eq!(line, &format!("{:3}: {}", i + 1, "x"));
    }
}
