# tamara

Sonda de disponibilidad por ICMP: lee su configuración, recoge de PostgreSQL
los servidores que debe vigilar, les envía ecos ICMP, guarda los resultados y
avisa a una API.

- `src/`: el núcleo verificado con Verus. La codificación de solicitudes de
  eco y su suma de verificación de Internet (`icmp::packet`), el filtro de
  respuestas (`icmp::icmp`, `icmp::protocol`), los pasos del sondeo
  (`icmp::destino`), los tipos de configuración y resultados (`tipos`), la
  decisión sobre la respuesta de la API (`backend`), la lectura de los
  tiempos del plan de PostgreSQL (`disponibilidad::db`) y los textos que se
  muestran (`utils`, `informe`, `ping`).
- `app/`: el programa: línea de órdenes, fichero YAML, sockets crudos, base
  de datos, HTTP y registro.
- `tests/`: pruebas de la biblioteca.
