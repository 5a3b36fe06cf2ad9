use vstd::prelude::*;

use crate::decimal::{decimal, decimal_string};

verus! {

/// The home page up to the counter value.
pub const PAGE_HEAD: &'static str = r#"
        <html>
        <head>
            <title>Contador, Contenido de Archivo y Calculadora</title>
        </head>
        <body>
            <h1>Contador</h1>
            <p>El contador actual es: "#;

/// The home page between the counter value and the file content.
pub const PAGE_MIDDLE: &'static str = r#"</p>
            <form action="/incrementar" method="post">
                <button type="submit">Incrementar</button>
            </form>
            <h1>Contenido de Archivo</h1>
            <p>"#;

/// The home page after the file content.
pub const PAGE_TAIL: &'static str = r#"</p>
            <form action="/obtener_archivo" method="post">
                <button type="submit">Obtener Datos de Archivo</button>
            </form>
            <h1>Calculadora</h1>
            <form action="/calcular" method="post">
                <label for="num1">Numero 1:</label>
                <input type="text" id="num1" name="num1"><br><br>
                <label for="num2">Numero 2:</label>
                <input type="text" id="num2" name="num2"><br><br>
                <label for="operation">Operacion:</label>
                <select id="operation" name="operation">
                    <option value="add">Sumar</option>
                    <option value="subtract">Restar</option>
                    <option value="multiply">Multiplicar</option>
                    <option value="divide">Dividir</option>
                </select><br><br>
                <button type="submit">Calcular</button>
            </form>
        </body>
        </html>
    "#;

/// The home page for a counter at `count` and a stored file content `content`.
pub open spec fn index_page(count: nat, content: Seq<char>) -> Seq<char> {
    PAGE_HEAD@ + decimal(count) + PAGE_MIDDLE@ + content + PAGE_TAIL@
}

/// `part` occurs in `text` as a contiguous run of characters.
pub open spec fn contains(text: Seq<char>, part: Seq<char>) -> bool {
    exists|i: int|
        0 <= i && i + part.len() <= text.len() && #[trigger] text.subrange(i, i + part.len())
            == part
}

/// Builds the home page's markup, with `count` in decimal notation and `content`
/// as it stands.
pub fn render_index(count: u32, content: &str) -> (html: String)
    ensures
        html@ == index_page(count as nat, content@),
{
    let mut html = String::from_str(PAGE_HEAD);
    let digits = decimal_string(count);
    html.append(digits.as_str());
    html.append(PAGE_MIDDLE);
    html.append(content);
    html.append(PAGE_TAIL);
    assert(html@ =~= index_page(count as nat, content@));
    html
}

/// The home page always shows the counter's value in decimal notation and the
/// stored file content, whatever they are.
pub proof fn lemma_page_shows_state(count: nat, content: Seq<char>)
    ensures
        contains(index_page(count, content), decimal(count)),
        contains(index_page(count, content), content),
{
    let page = index_page(count, content);
    let d = decimal(count);
    let i = PAGE_HEAD@.len() as int;
    let j = i + d.len() + PAGE_MIDDLE@.len();
    assert(page.subrange(i, i + d.len()) =~= d);
    assert(page.subrange(j, j + content.len()) =~= content);
}

} // verus!
