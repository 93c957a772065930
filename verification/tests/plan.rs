use tamara::disponibilidad::db::{reunir_capturas, tiempos_del_plan};

fn lineas(v: &[&str]) -> Vec<String> {
    v.iter().map(|s| s.to_string()).collect()
}

fn par(a: &str, b: &str) -> (String, String) {
    (a.to_string(), b.to_string())
}

#[test]
fn tiempos_de_un_plan_real() {
    let plan = lineas(&[
        "Result  (cost=0.00..0.01 rows=1 width=4) (actual time=0.001..0.002 rows=1 loops=1)",
        "Planning Time: 0.035 ms",
        "Execution Time: 0.012 ms",
    ]);
    assert_eq!(tiempos_del_plan(&plan), vec![par("Planning", "0.035"), par("Execution", "0.012")]);
}

#[test]
fn lineas_que_no_coinciden_se_omiten() {
    let plan = lineas(&[
        "planning time: 1.0 ms",
        "Planning Time: 12 ms",
        "Execution Time: 3.25 s",
        "",
        "  Execution Time: 7.5 ms (aprox)",
    ]);
    assert_eq!(tiempos_del_plan(&plan), vec![par("Execution", "7.5")]);
    assert_eq!(tiempos_del_plan(&Vec::new()), Vec::<(String, String)>::new());
}

#[test]
fn reunir_conserva_el_orden() {
    let c = vec![None, Some(par("Execution", "1.0")), None, Some(par("Planning", "2.0"))];
    assert_eq!(reunir_capturas(&c), vec![par("Execution", "1.0"), par("Planning", "2.0")]);
}
